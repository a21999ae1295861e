//! The calls the shell asks its host to make, and what each does to the window.

use crate::window::{Visibility, Window};
use vstd::prelude::*;

verus! {

/// A notification sent to the content that the window presents.
#[derive(Clone, Copy, Debug, PartialEq, Eq, Structural)]
pub enum Signal {
    /// The window is being shown: the content may refresh itself.
    Load,
    /// The window is being hidden: the content may clear its state.
    Reset,
}

impl Signal {
    /// The name under which the content listens for the signal.
    pub open spec fn spec_name(self) -> Seq<char> {
        match self {
            Signal::Load => "load"@,
            Signal::Reset => "reset"@,
        }
    }

    pub fn name(self) -> (s: &'static str)
        ensures
            s@ == self.spec_name(),
    {
        match self {
            Signal::Load => "load",
            Signal::Reset => "reset",
        }
    }
}

/// One operation on the window. Each can fail in the host, and a failure is fatal.
#[derive(Clone, Copy, Debug, PartialEq, Eq, Structural)]
pub enum WindowCall {
    Emit(Signal),
    Center,
    Show,
    SetFocus,
    Hide,
}

impl WindowCall {
    /// The window after the host has carried out the call. A signal leaves the
    /// window as it is, and a window taken off the screen gives up the focus.
    pub open spec fn effect(self, w: Window) -> Window {
        match self {
            WindowCall::Emit(_) => w,
            WindowCall::Center => Window { centered: true, ..w },
            WindowCall::Show => Window { visibility: Visibility::Visible, ..w },
            WindowCall::SetFocus => Window { focused: true, ..w },
            WindowCall::Hide => Window { visibility: Visibility::Hidden, focused: false, ..w },
        }
    }

    /// The message the process aborts with when the host fails the call.
    pub open spec fn spec_diagnostic(self) -> Seq<char> {
        match self {
            WindowCall::Emit(Signal::Load) => "Failed to emit load event"@,
            WindowCall::Emit(Signal::Reset) => "Failed to emit reset event"@,
            WindowCall::Center => "Failed to center window"@,
            WindowCall::Show => "Failed to show window"@,
            WindowCall::SetFocus => "Failed to set focus"@,
            WindowCall::Hide => "Failed to hide window"@,
        }
    }

    pub fn diagnostic(self) -> (s: &'static str)
        ensures
            s@ == self.spec_diagnostic(),
    {
        match self {
            WindowCall::Emit(Signal::Load) => "Failed to emit load event",
            WindowCall::Emit(Signal::Reset) => "Failed to emit reset event",
            WindowCall::Center => "Failed to center window",
            WindowCall::Show => "Failed to show window",
            WindowCall::SetFocus => "Failed to set focus",
            WindowCall::Hide => "Failed to hide window",
        }
    }
}

/// One call on the host, in the order in which a plan lists them.
#[derive(Clone, Copy, Debug, PartialEq, Eq, Structural)]
pub enum HostCall {
    /// An operation on the window.
    Window(WindowCall),
    /// Tell the host to drop a pending close request, so that the window stays alive.
    PreventClose,
    /// End the process with this exit code.
    Exit(i32),
}

impl HostCall {
    /// The window after the call. Only window operations change it.
    pub open spec fn effect(self, w: Window) -> Window {
        match self {
            HostCall::Window(call) => call.effect(w),
            HostCall::PreventClose => w,
            HostCall::Exit(_) => w,
        }
    }
}

/// The window after the host has carried out `calls` from first to last.
pub open spec fn effects(calls: Seq<HostCall>, w: Window) -> Window
    decreases calls.len(),
{
    if calls.len() == 0 {
        w
    } else {
        calls.last().effect(effects(calls.drop_last(), w))
    }
}

impl Window {
    /// Carries out one call on the model, as a host does on the real window.
    pub fn perform(self, call: HostCall) -> (w: Window)
        ensures
            w == call.effect(self),
    {
        match call {
            HostCall::Window(WindowCall::Emit(_)) => self,
            HostCall::Window(WindowCall::Center) => Window { centered: true, ..self },
            HostCall::Window(WindowCall::Show) => Window {
                visibility: Visibility::Visible,
                ..self
            },
            HostCall::Window(WindowCall::SetFocus) => Window { focused: true, ..self },
            HostCall::Window(WindowCall::Hide) => Window {
                visibility: Visibility::Hidden,
                focused: false,
                ..self
            },
            HostCall::PreventClose => self,
            HostCall::Exit(_) => self,
        }
    }

    /// Carries out a whole plan on the model.
    pub fn perform_all(self, calls: &[HostCall]) -> (w: Window)
        ensures
            w == effects(calls@, self),
    {
        let mut w = self;
        let mut i: usize = 0;
        while i < calls.len()
            invariant
                i <= calls.len(),
                w == effects(calls@.take(i as int), self),
            decreases calls.len() - i,
        {
            assert(calls@.take(i + 1).drop_last() == calls@.take(i as int));
            w = w.perform(calls[i]);
            i += 1;
        }
        assert(calls@.take(i as int) == calls@);
        w
    }
}

} // verus!
