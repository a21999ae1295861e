//! The observable state of the shell's single window.

use crate::event::Event;
use vstd::prelude::*;

verus! {

/// Whether the window is on screen.
#[derive(Clone, Copy, Debug, PartialEq, Eq, Structural)]
pub enum Visibility {
    Visible,
    Hidden,
}

/// What the shell tracks of its window: visibility, input focus, and whether
/// the window sits in the middle of the screen.
#[derive(Clone, Copy, Debug, PartialEq, Eq, Structural)]
pub struct Window {
    pub visibility: Visibility,
    pub focused: bool,
    pub centered: bool,
}

impl Window {
    /// The window as the shell starts: hidden, unfocused, wherever the host put it.
    pub open spec fn initial() -> Window {
        Window { visibility: Visibility::Hidden, focused: false, centered: false }
    }

    pub fn new() -> (w: Window)
        ensures
            w == Window::initial(),
    {
        Window { visibility: Visibility::Hidden, focused: false, centered: false }
    }

    /// The window once it has been shown: on screen, centered and holding the
    /// focus, however it was before.
    pub open spec fn shown(self) -> Window {
        Window { visibility: Visibility::Visible, focused: true, centered: true }
    }

    /// The window once it has been hidden: off screen and without the focus,
    /// at the place where it was.
    pub open spec fn hidden(self) -> Window {
        Window { visibility: Visibility::Hidden, focused: false, centered: self.centered }
    }

    /// The window after the shell has answered `event`. `Quit` ends the
    /// process without touching the window.
    pub open spec fn after(self, event: Event) -> Window {
        match event {
            Event::Show => self.shown(),
            Event::Hide => self.hidden(),
            Event::CloseRequested => self.hidden(),
            Event::Quit => self,
        }
    }
}

} // verus!
