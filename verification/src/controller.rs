//! The window visibility controller: the shell's state machine.
//!
//! While the process runs the window is either visible or hidden, and it is
//! never destroyed: a request to close it hides it. `Quit` ends the process.
//! Every transition yields the calls the host has to make, in order; the
//! controller keeps its model of the window in step by carrying out the same
//! calls on it.

use crate::event::Event;
use crate::host::{effects, HostCall, Signal, WindowCall};
use crate::window::{Visibility, Window};
use vstd::prelude::*;

verus! {

/// The code the process exits with when the user quits.
pub const EXIT_OK: i32 = 0;

/// The calls with which the shell answers an event, first to last.
pub open spec fn plan(event: Event) -> Seq<HostCall> {
    match event {
        Event::Show => seq![
            HostCall::Window(WindowCall::Emit(Signal::Load)),
            HostCall::Window(WindowCall::Center),
            HostCall::Window(WindowCall::Show),
            HostCall::Window(WindowCall::SetFocus),
        ],
        Event::Hide => seq![
            HostCall::Window(WindowCall::Emit(Signal::Reset)),
            HostCall::Window(WindowCall::Hide),
        ],
        Event::CloseRequested => seq![
            HostCall::Window(WindowCall::Emit(Signal::Reset)),
            HostCall::Window(WindowCall::Hide),
            HostCall::PreventClose,
        ],
        Event::Quit => seq![HostCall::Exit(EXIT_OK)],
    }
}

/// Builds the plan for an event.
pub fn calls_for(event: Event) -> (calls: Vec<HostCall>)
    ensures
        calls@ == plan(event),
{
    let mut calls: Vec<HostCall> = Vec::new();
    match event {
        Event::Show => {
            calls.push(HostCall::Window(WindowCall::Emit(Signal::Load)));
            calls.push(HostCall::Window(WindowCall::Center));
            calls.push(HostCall::Window(WindowCall::Show));
            calls.push(HostCall::Window(WindowCall::SetFocus));
        },
        Event::Hide => {
            calls.push(HostCall::Window(WindowCall::Emit(Signal::Reset)));
            calls.push(HostCall::Window(WindowCall::Hide));
        },
        Event::CloseRequested => {
            calls.push(HostCall::Window(WindowCall::Emit(Signal::Reset)));
            calls.push(HostCall::Window(WindowCall::Hide));
            calls.push(HostCall::PreventClose);
        },
        Event::Quit => {
            calls.push(HostCall::Exit(EXIT_OK));
        },
    }
    assert(calls@ =~= plan(event));
    calls
}

/// A plan does to the window what its event stands for.
pub proof fn lemma_plan_reaches_target(w: Window, event: Event)
    ensures
        effects(plan(event), w) == w.after(event),
{
    reveal_with_fuel(effects, 5);
}

/// The shell while its process runs, with the model of the one window it was
/// given.
#[derive(Clone, Copy, Debug, PartialEq, Eq, Structural)]
pub struct Controller {
    pub window: Window,
}

/// Where the shell stands: running with its window, or gone.
#[derive(Clone, Copy, Debug, PartialEq, Eq, Structural)]
pub enum Lifecycle {
    Running(Controller),
    Terminated { exit_code: i32 },
}

/// The outcome of one transition: the next state, and the calls for the host.
#[derive(Debug, PartialEq, Eq)]
pub struct Step {
    pub state: Lifecycle,
    pub calls: Vec<HostCall>,
}

impl Controller {
    /// A controller for the window that the host hands over.
    pub fn new(window: Window) -> (c: Controller)
        ensures
            c.window == window,
    {
        Controller { window }
    }

    /// The state that `event` leads to.
    pub open spec fn after(self, event: Event) -> Lifecycle {
        match event {
            Event::Quit => Lifecycle::Terminated { exit_code: EXIT_OK },
            _ => Lifecycle::Running(Controller { window: self.window.after(event) }),
        }
    }

    /// Brings the window up: signals the content, centers the window, puts it
    /// on screen and gives it the focus.
    pub fn show_window(&mut self) -> (calls: Vec<HostCall>)
        ensures
            final(self).window == old(self).window.shown(),
            calls@ == plan(Event::Show),
    {
        self.carry_out(Event::Show)
    }

    /// Takes the window off the screen and keeps it alive.
    pub fn hide_window(&mut self) -> (calls: Vec<HostCall>)
        ensures
            final(self).window == old(self).window.hidden(),
            calls@ == plan(Event::Hide),
    {
        self.carry_out(Event::Hide)
    }

    /// Answers a request to close the window: hides it, and has the host drop
    /// the request so that the window is not destroyed.
    pub fn close_requested(&mut self) -> (calls: Vec<HostCall>)
        ensures
            final(self).window == old(self).window.hidden(),
            calls@ == plan(Event::CloseRequested),
    {
        self.carry_out(Event::CloseRequested)
    }

    /// Ends the process, whatever the window's state.
    pub fn quit(self) -> (step: Step)
        ensures
            step.state == (Lifecycle::Terminated { exit_code: EXIT_OK }),
            step.calls@ == plan(Event::Quit),
    {
        Step { state: Lifecycle::Terminated { exit_code: EXIT_OK }, calls: calls_for(Event::Quit) }
    }

    /// The transition function: the next state and the plan for any event.
    pub fn handle(self, event: Event) -> (step: Step)
        ensures
            step.state == self.after(event),
            step.calls@ == plan(event),
    {
        match event {
            Event::Quit => self.quit(),
            _ => {
                let mut next = self;
                let calls = next.carry_out(event);
                Step { state: Lifecycle::Running(next), calls }
            },
        }
    }

    /// A request to close the window does not end the process and does not
    /// cost the window: the shell goes on running with the window hidden, no
    /// call of the plan exits, and the plan has the host drop the request.
    pub proof fn lemma_close_request_only_hides(self)
        ensures
            self.after(Event::CloseRequested) == Lifecycle::Running(
                Controller { window: self.window.hidden() },
            ),
            self.window.hidden().visibility == Visibility::Hidden,
            plan(Event::CloseRequested).contains(HostCall::PreventClose),
            forall|code: i32| !plan(Event::CloseRequested).contains(HostCall::Exit(code)),
    {
        assert(plan(Event::CloseRequested)[2] == HostCall::PreventClose);
    }

    /// `Quit` ends the process with the exit code for success from every
    /// state, and asks the host for nothing but that exit.
    pub proof fn lemma_quit_exits_with_success(self)
        ensures
            self.after(Event::Quit) == (Lifecycle::Terminated { exit_code: 0 }),
            plan(Event::Quit) == seq![HostCall::Exit(0)],
    {
    }

    /// Plans the calls for an event and carries them out on the model.
    fn carry_out(&mut self, event: Event) -> (calls: Vec<HostCall>)
        ensures
            final(self).window == old(self).window.after(event),
            calls@ == plan(event),
    {
        let calls = calls_for(event);
        proof {
            lemma_plan_reaches_target(self.window, event);
        }
        self.window = self.window.perform_all(calls.as_slice());
        calls
    }
}

impl Lifecycle {
    /// The state that `event` leads to. Once the process is gone nothing moves.
    pub open spec fn after(self, event: Event) -> Lifecycle {
        match self {
            Lifecycle::Running(controller) => controller.after(event),
            Lifecycle::Terminated { .. } => self,
        }
    }

    /// The calls with which this state answers `event`.
    pub open spec fn answer(self, event: Event) -> Seq<HostCall> {
        match self {
            Lifecycle::Running(_) => plan(event),
            Lifecycle::Terminated { .. } => Seq::empty(),
        }
    }

    /// The transition function over the whole machine.
    pub fn handle(self, event: Event) -> (step: Step)
        ensures
            step.state == self.after(event),
            step.calls@ == self.answer(event),
    {
        match self {
            Lifecycle::Running(controller) => controller.handle(event),
            Lifecycle::Terminated { exit_code } => Step {
                state: Lifecycle::Terminated { exit_code },
                calls: Vec::new(),
            },
        }
    }
}

} // verus!
