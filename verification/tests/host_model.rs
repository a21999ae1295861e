use tray_shell::controller::{calls_for, Controller, Lifecycle};
use tray_shell::event::Event;
use tray_shell::host::{HostCall, Signal, WindowCall};
use tray_shell::window::{Visibility, Window};

fn every_window() -> Vec<Window> {
    let mut all = Vec::new();
    for visibility in [Visibility::Visible, Visibility::Hidden] {
        for focused in [false, true] {
            for centered in [false, true] {
                all.push(Window { visibility, focused, centered });
            }
        }
    }
    all
}

#[test]
fn each_window_call_changes_only_what_it_names() {
    for w in every_window() {
        assert_eq!(w.perform(HostCall::Window(WindowCall::Emit(Signal::Load))), w);
        assert_eq!(w.perform(HostCall::Window(WindowCall::Emit(Signal::Reset))), w);
        assert_eq!(
            w.perform(HostCall::Window(WindowCall::Center)),
            Window { centered: true, ..w }
        );
        assert_eq!(
            w.perform(HostCall::Window(WindowCall::Show)),
            Window { visibility: Visibility::Visible, ..w }
        );
        assert_eq!(
            w.perform(HostCall::Window(WindowCall::SetFocus)),
            Window { focused: true, ..w }
        );
        assert_eq!(
            w.perform(HostCall::Window(WindowCall::Hide)),
            Window { visibility: Visibility::Hidden, focused: false, ..w }
        );
    }
}

#[test]
fn calls_that_are_not_about_the_window_leave_it_alone() {
    for w in every_window() {
        assert_eq!(w.perform(HostCall::PreventClose), w);
        assert_eq!(w.perform(HostCall::Exit(0)), w);
        assert_eq!(w.perform(HostCall::Exit(-1)), w);
    }
}

#[test]
fn perform_all_runs_the_calls_from_first_to_last() {
    let w = Window::new();
    assert_eq!(w.perform_all(&[]), w);
    let show_then_hide =
        [HostCall::Window(WindowCall::Show), HostCall::Window(WindowCall::Hide)];
    assert_eq!(w.perform_all(&show_then_hide).visibility, Visibility::Hidden);
    let hide_then_show =
        [HostCall::Window(WindowCall::Hide), HostCall::Window(WindowCall::Show)];
    assert_eq!(w.perform_all(&hide_then_show).visibility, Visibility::Visible);
    let focus_then_hide =
        [HostCall::Window(WindowCall::SetFocus), HostCall::Window(WindowCall::Hide)];
    assert!(!w.perform_all(&focus_then_hide).focused);
    let hide_then_focus =
        [HostCall::Window(WindowCall::Hide), HostCall::Window(WindowCall::SetFocus)];
    assert!(w.perform_all(&hide_then_focus).focused);
}

#[test]
fn a_host_that_follows_the_plan_ends_where_the_controller_says() {
    for w in every_window() {
        for event in [Event::Show, Event::Hide, Event::CloseRequested] {
            let step = Controller::new(w).handle(event);
            let on_host = w.perform_all(&step.calls);
            assert_eq!(step.state, Lifecycle::Running(Controller { window: on_host }));
            assert_eq!(w.perform_all(&calls_for(event)), on_host);
        }
        assert_eq!(w.perform_all(&calls_for(Event::Quit)), w);
    }
}

#[test]
fn signals_carry_their_names() {
    assert_eq!(Signal::Load.name(), "load");
    assert_eq!(Signal::Reset.name(), "reset");
}

#[test]
fn every_window_call_has_its_diagnostic() {
    assert_eq!(WindowCall::Emit(Signal::Load).diagnostic(), "Failed to emit load event");
    assert_eq!(WindowCall::Emit(Signal::Reset).diagnostic(), "Failed to emit reset event");
    assert_eq!(WindowCall::Center.diagnostic(), "Failed to center window");
    assert_eq!(WindowCall::Show.diagnostic(), "Failed to show window");
    assert_eq!(WindowCall::SetFocus.diagnostic(), "Failed to set focus");
    assert_eq!(WindowCall::Hide.diagnostic(), "Failed to hide window");
}
