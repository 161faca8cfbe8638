//! What holds of every application, proved over its model.

use vstd::prelude::*;
use crate::application::Report;
use crate::default_window::DefaultWindow;
use crate::model::AppState;
use crate::terminal::Event;
use crate::window::{installed, reaction, MutateResult, Window};

verus! {

/// After any non-empty sequence of pushes, the stack is the old stack followed
/// by the pushed windows, the active index is that of the window pushed last,
/// and that window is the active one.
pub proof fn lemma_last_pushed_is_active<W: Window>(app: AppState<W>, windows: Seq<W>)
    requires
        windows.len() > 0,
    ensures
        app.pushed_all(windows).windows == app.windows + windows,
        app.pushed_all(windows).active_window == app.windows.len() + windows.len() - 1,
        app.pushed_all(windows).active() == Some(windows.last()),
        app.pushed_all(windows).exit == app.exit,
    decreases windows.len(),
{
    let earlier = windows.drop_last();
    if earlier.len() == 0 {
        assert(app.pushed_all(earlier) == app);
        assert(app.windows.push(windows.last()) =~= app.windows + windows);
    } else {
        lemma_last_pushed_is_active(app, earlier);
        assert((app.windows + earlier).push(windows.last()) =~= app.windows + windows);
    }
}

/// No operation but a push changes the active index or the number of
/// resident windows.
pub proof fn lemma_only_push_moves_active_index<W: Window>(
    app: AppState<W>,
    window: W,
    event: Event,
    report: Report,
)
    ensures
        app.replaced_active(window).active_window == app.active_window,
        app.replaced_active(window).windows.len() == app.windows.len(),
        app.updated().active_window == app.active_window,
        app.updated().windows.len() == app.windows.len(),
        app.dispatched(event).active_window == app.active_window,
        app.dispatched(event).windows.len() == app.windows.len(),
        app.advanced(report).active_window == app.active_window,
        app.advanced(report).windows.len() == app.windows.len(),
{
}

/// An application with an empty stack has no active window, and dispatching
/// any event to it sets the exit flag.
pub proof fn lemma_empty_stack_exits<W: Window>(app: AppState<W>, event: Event)
    requires
        app.windows.len() == 0,
    ensures
        app.active() is None,
        app.dispatched(event).exit,
        app.dispatched(event).windows == app.windows,
{
}

/// Replacing the active window changes nothing where the active index is out
/// of range. Otherwise it overwrites the active slot and no other, and leaves
/// the exit flag and the active index as they were.
pub proof fn lemma_replace_touches_active_slot_only<W: Window>(app: AppState<W>, window: W)
    ensures
        !app.has_active() ==> app.replaced_active(window) == app,
        app.has_active() ==> app.replaced_active(window).windows[app.active_window as int]
            == window,
        app.replaced_active(window).windows.len() == app.windows.len(),
        forall|i: int|
            0 <= i < app.windows.len() && i != app.active_window
                ==> #[trigger] app.replaced_active(window).windows[i] == app.windows[i],
        app.replaced_active(window).exit == app.exit,
        app.replaced_active(window).active_window == app.active_window,
{
}

/// Dispatching an event to an application with an active window consults one
/// handler of that window, the one that the event's variant selects. If the
/// handler answers `Unchanged`, the application is as it was. If it answers
/// `Changed`, the active slot holds the new window and every other slot, the
/// active index and the exit flag are as they were.
pub proof fn lemma_dispatch_touches_active_slot_only<W: Window>(app: AppState<W>, event: Event)
    requires
        app.has_active(),
    ensures
        match reaction(app.windows[app.active_window as int], event) {
            MutateResult::Unchanged => app.dispatched(event) == app,
            MutateResult::Changed(window) => app.dispatched(event) == (AppState {
                exit: app.exit,
                active_window: app.active_window,
                windows: app.windows.update(app.active_window as int, window),
            }),
        },
        app.dispatched(event).windows.len() == app.windows.len(),
        forall|i: int|
            0 <= i < app.windows.len() && i != app.active_window
                ==> #[trigger] app.dispatched(event).windows[i] == app.windows[i],
{
}

/// Each event variant has one handler, and the answer to the event is that
/// handler's answer.
pub proof fn lemma_one_handler_per_event<W: Window>(window: W, event: Event)
    ensures
        event is FocusGained ==> reaction(window, event) == window.spec_on_focus_gained(),
        event is FocusLost ==> reaction(window, event) == window.spec_on_focus_lost(),
        event matches Event::Key(key) ==> reaction(window, event) == window.spec_on_key(key),
        event matches Event::Mouse(mouse) ==> reaction(window, event) == window.spec_on_mouse(
            mouse,
        ),
        event matches Event::Paste(data) ==> reaction(window, event) == window.spec_on_paste(
            data@,
        ),
        event matches Event::Resize(columns, rows) ==> reaction(window, event)
            == window.spec_on_resize(columns, rows),
{
}

/// The update phase steps every window once, whatever the active index is:
/// each slot holds what the window that stood in it asked for in its one
/// step, and the stack's length, the active index and the exit flag are as
/// they were.
pub proof fn lemma_update_steps_every_window<W: Window>(app: AppState<W>)
    ensures
        app.updated().windows.len() == app.windows.len(),
        forall|i: int|
            0 <= i < app.windows.len() ==> #[trigger] app.updated().windows[i] == installed(
                app.windows[i],
                app.windows[i].spec_step(),
            ),
        app.updated().active_window == app.active_window,
        app.updated().exit == app.exit,
{
}

/// The update phase does not look at the active index: two applications with
/// the same stack hold the same stack after it.
pub proof fn lemma_update_ignores_active_index<W: Window>(a: AppState<W>, b: AppState<W>)
    requires
        a.windows == b.windows,
    ensures
        a.updated().windows == b.updated().windows,
{
}

/// No operation resets the exit flag, and none but a dispatch sets it.
pub proof fn lemma_exit_is_never_reset<W: Window>(app: AppState<W>, window: W, event: Event)
    ensures
        app.pushed(window).exit == app.exit,
        app.replaced_active(window).exit == app.exit,
        app.updated().exit == app.exit,
        app.exit ==> app.dispatched(event).exit,
{
}

/// Once the application has exited, the loop answers every report with
/// `Exit` and changes nothing: no frame is drawn, no window is stepped and no
/// input is polled any more.
pub proof fn lemma_exited_is_terminal<W: Window>(app: AppState<W>, report: Report)
    requires
        app.exit,
    ensures
        app.advanced(report) == app,
        app.next_action(report) is Exit,
{
}

/// While the application runs, only the event phase can end the loop: the
/// answer to any other report is not `Exit`, and the exit flag stays unset.
pub proof fn lemma_only_event_phase_exits<W: Window>(app: AppState<W>, report: Report)
    requires
        !app.exit,
        !(report is Received),
    ensures
        !app.advanced(report).exit,
        !(app.next_action(report) is Exit),
{
}

/// An event phase ends the loop if and only if, at its start, the active
/// index is out of bounds for the stack.
pub proof fn lemma_event_phase_exits_iff_no_active<W: Window>(app: AppState<W>, event: Event)
    requires
        !app.exit,
    ensures
        app.advanced(Report::Received(event)).exit <==> !app.has_active(),
        app.next_action(Report::Received(event)) is Exit <==> !app.has_active(),
{
}

/// The loop changes neither the length of the stack nor the active index, so
/// whether there is an active window is settled when the loop is entered.
pub proof fn lemma_loop_keeps_active_index<W: Window>(app: AppState<W>, reports: Seq<Report>)
    ensures
        app.advanced_all(reports).windows.len() == app.windows.len(),
        app.advanced_all(reports).active_window == app.active_window,
        app.advanced_all(reports).has_active() == app.has_active(),
    decreases reports.len(),
{
    if reports.len() > 0 {
        lemma_loop_keeps_active_index(app, reports.drop_last());
    }
}

/// Over any run of the loop: the application has exited at the end if and
/// only if it had exited at the start, or an event was received while the
/// active index was out of bounds.
pub proof fn lemma_loop_exits_iff_event_without_active<W: Window>(
    app: AppState<W>,
    reports: Seq<Report>,
)
    ensures
        app.advanced_all(reports).exit <==> app.exit || (!app.has_active() && exists|k: int|
            0 <= k < reports.len() && #[trigger] reports[k] is Received),
    decreases reports.len(),
{
    if reports.len() > 0 {
        let earlier = reports.drop_last();
        lemma_loop_exits_iff_event_without_active(app, earlier);
        lemma_loop_keeps_active_index(app, earlier);
        let before = app.advanced_all(earlier);
        if before.exit {
            if !app.exit {
                let k: int = choose|k: int| 0 <= k < earlier.len() && #[trigger] earlier[k] is Received;
                assert(reports[k] is Received);
            }
        } else if reports.last() is Received && !app.has_active() {
            assert(reports[reports.len() - 1] is Received);
        } else {
            assert forall|k: int| 0 <= k < reports.len() && #[trigger] reports[k] is Received
                implies app.has_active() by {
                if k < earlier.len() {
                    assert(earlier[k] is Received);
                }
            }
        }
    }
}

/// What a driver that does as it is asked reports in the course of one tick:
/// the frame is drawn, the wait for input is over, and the event, if one was
/// ready, has been read.
pub open spec fn tick_reports(event: Option<Event>) -> Seq<Report> {
    match event {
        None => seq![Report::Drawn, Report::Polled(false)],
        Some(event) => seq![Report::Drawn, Report::Polled(true), Report::Received(event)],
    }
}

/// One tick of a running application is the update phase followed by the
/// dispatch of at most one event: of none where the poll found none.
pub proof fn lemma_tick_updates_then_dispatches<W: Window>(app: AppState<W>, event: Option<Event>)
    requires
        !app.exit,
    ensures
        app.advanced_all(tick_reports(event)) == match event {
            None => app.updated(),
            Some(event) => app.updated().dispatched(event),
        },
{
    let reports = tick_reports(event);
    let drawn = seq![Report::Drawn];
    assert(drawn.drop_last() =~= Seq::<Report>::empty());
    assert(app.advanced_all(drawn.drop_last()) == app);
    assert(app.advanced_all(drawn) == app.updated());
    match event {
        None => {
            assert(reports.drop_last() =~= drawn);
        },
        Some(event) => {
            let polled = seq![Report::Drawn, Report::Polled(true)];
            assert(polled.drop_last() =~= drawn);
            assert(app.advanced_all(polled) == app.updated());
            assert(reports.drop_last() =~= polled);
        },
    }
}

/// An application in which every window is implemented can render, update
/// and take in every report, and it stays so when an implemented window is
/// pushed.
pub proof fn lemma_implemented_stack_admits_every_report<W: Window>(
    app: AppState<W>,
    window: W,
    report: Report,
)
    requires
        app.all_implemented(),
    ensures
        app.active_implemented(),
        app.admits(report),
        window.implemented() ==> app.pushed(window).all_implemented(),
{
}

/// An application that has exited admits every report, whatever its windows
/// are: it calls on none of them.
pub proof fn lemma_exited_admits_every_report<W: Window>(app: AppState<W>, report: Report)
    requires
        app.exit,
    ensures
        app.admits(report),
{
}

/// The default window is not implemented. A stack of default windows can be
/// rendered and updated only while it is empty, and an event can be
/// dispatched to it only while it has no active window, which ends the
/// application.
pub proof fn lemma_default_window_admits_no_call(app: AppState<DefaultWindow>, event: Event)
    ensures
        app.all_implemented() <==> app.windows.len() == 0,
        app.active_implemented() <==> !app.has_active(),
        app.active_implemented() ==> app.dispatched(event).exit,
        !app.exit ==> (app.admits(Report::Drawn) <==> app.windows.len() == 0),
        !app.exit ==> (app.admits(Report::Received(event)) <==> !app.has_active()),
{
    if app.windows.len() > 0 {
        assert(!app.windows[0].implemented());
    }
}

} // verus!
