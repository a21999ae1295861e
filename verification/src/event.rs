//! The events that drive the shell, and the places they come from: the tray
//! menu, the tray icon, and the window's close button.

use crate::window::Visibility;
use vstd::prelude::*;
use vstd::string::StringSliceAdditionalSpecFns;

verus! {

/// What can happen to the shell. Every trigger comes down to one of these.
#[derive(Clone, Copy, Debug, PartialEq, Eq, Structural)]
pub enum Event {
    Show,
    Hide,
    Quit,
    /// The user asked the window to close. The shell hides it instead.
    CloseRequested,
}

impl Event {
    /// The visibility in which the event leaves the window, for the events
    /// after which there still is a window.
    pub open spec fn target(self) -> Option<Visibility> {
        match self {
            Event::Show => Some(Visibility::Visible),
            Event::Hide => Some(Visibility::Hidden),
            Event::CloseRequested => Some(Visibility::Hidden),
            Event::Quit => None,
        }
    }

    /// The event behind a click on the tray menu item with this id, if the id
    /// is one of the menu's.
    pub open spec fn spec_from_menu_id(id: Seq<char>) -> Option<Event> {
        match MenuItem::spec_from_id(id) {
            Some(item) => Some(item.spec_event()),
            None => None,
        }
    }

    pub fn from_menu_id(id: &str) -> (event: Option<Event>)
        ensures
            event == Event::spec_from_menu_id(id@),
    {
        match MenuItem::from_id(id) {
            Some(item) => Some(item.event()),
            None => None,
        }
    }
}

/// An entry of the tray menu.
#[derive(Clone, Copy, Debug, PartialEq, Eq, Structural)]
pub enum MenuItem {
    Show,
    Hide,
    Quit,
}

impl MenuItem {
    /// The stable id by which the host reports a click on the item.
    pub open spec fn spec_id(self) -> Seq<char> {
        match self {
            MenuItem::Show => "show"@,
            MenuItem::Hide => "hide"@,
            MenuItem::Quit => "quit"@,
        }
    }

    pub fn id(self) -> (s: &'static str)
        ensures
            s@ == self.spec_id(),
    {
        match self {
            MenuItem::Show => "show",
            MenuItem::Hide => "hide",
            MenuItem::Quit => "quit",
        }
    }

    /// The text the menu shows for the item.
    pub open spec fn spec_label(self) -> Seq<char> {
        match self {
            MenuItem::Show => "Show"@,
            MenuItem::Hide => "Hide"@,
            MenuItem::Quit => "Quit"@,
        }
    }

    pub fn label(self) -> (s: &'static str)
        ensures
            s@ == self.spec_label(),
    {
        match self {
            MenuItem::Show => "Show",
            MenuItem::Hide => "Hide",
            MenuItem::Quit => "Quit",
        }
    }

    /// The menu from top to bottom.
    pub fn all() -> (items: [MenuItem; 3])
        ensures
            items@ == seq![MenuItem::Show, MenuItem::Hide, MenuItem::Quit],
    {
        [MenuItem::Show, MenuItem::Hide, MenuItem::Quit]
    }

    /// The item that carries `id`, if any does.
    pub open spec fn spec_from_id(id: Seq<char>) -> Option<MenuItem> {
        if id == MenuItem::Show.spec_id() {
            Some(MenuItem::Show)
        } else if id == MenuItem::Hide.spec_id() {
            Some(MenuItem::Hide)
        } else if id == MenuItem::Quit.spec_id() {
            Some(MenuItem::Quit)
        } else {
            None
        }
    }

    pub fn from_id(id: &str) -> (item: Option<MenuItem>)
        ensures
            item == MenuItem::spec_from_id(id@),
    {
        if same_text(id, "show") {
            Some(MenuItem::Show)
        } else if same_text(id, "hide") {
            Some(MenuItem::Hide)
        } else if same_text(id, "quit") {
            Some(MenuItem::Quit)
        } else {
            None
        }
    }

    /// The event that a click on the item stands for.
    pub open spec fn spec_event(self) -> Event {
        match self {
            MenuItem::Show => Event::Show,
            MenuItem::Hide => Event::Hide,
            MenuItem::Quit => Event::Quit,
        }
    }

    pub fn event(self) -> (e: Event)
        ensures
            e == self.spec_event(),
    {
        match self {
            MenuItem::Show => Event::Show,
            MenuItem::Hide => Event::Hide,
            MenuItem::Quit => Event::Quit,
        }
    }

    /// No two items share an id, so an id names at most one item, and each
    /// item is found again by its own id.
    pub proof fn lemma_id_names_its_item(self)
        ensures
            MenuItem::spec_from_id(self.spec_id()) == Some(self),
            forall|id: Seq<char>|
                MenuItem::spec_from_id(id) == Some(self) <==> id == self.spec_id(),
    {
        reveal_strlit("show");
        reveal_strlit("hide");
        reveal_strlit("quit");
        // The three ids differ in their first letter.
        assert("show"@[0] == 's');
        assert("hide"@[0] == 'h');
        assert("quit"@[0] == 'q');
    }
}

/// A button of the mouse.
#[derive(Clone, Copy, Debug, PartialEq, Eq, Structural)]
pub enum MouseButton {
    Left,
    Right,
    Middle,
}

/// Whether a mouse button went down or came back up.
#[derive(Clone, Copy, Debug, PartialEq, Eq, Structural)]
pub enum ButtonState {
    Up,
    Down,
}

/// What the host reports of the pointer over the tray icon.
#[derive(Clone, Copy, Debug, PartialEq, Eq, Structural)]
pub enum TrayEvent {
    Click { button: MouseButton, state: ButtonState },
    DoubleClick { button: MouseButton },
    Enter,
    Move,
    Leave,
}

impl TrayEvent {
    /// Releasing the left button over the icon shows the window. Nothing else
    /// on the icon means anything to the shell.
    pub open spec fn spec_event(self) -> Option<Event> {
        match self {
            TrayEvent::Click { button: MouseButton::Left, state: ButtonState::Up } => Some(
                Event::Show,
            ),
            _ => None,
        }
    }

    pub fn event(self) -> (e: Option<Event>)
        ensures
            e == self.spec_event(),
    {
        match self {
            TrayEvent::Click { button: MouseButton::Left, state: ButtonState::Up } => Some(
                Event::Show,
            ),
            _ => None,
        }
    }
}

/// Whether two strings hold the same text, decided on their bytes.
fn same_text(a: &str, b: &str) -> (same: bool)
    ensures
        same == (a@ == b@),
{
    let x = a.as_bytes();
    let y = b.as_bytes();
    proof {
        // Two texts with the same encoding are the same text.
        vstd::utf8::encode_utf8_decode_utf8(a@);
        vstd::utf8::encode_utf8_decode_utf8(b@);
    }
    if x.len() != y.len() {
        return false;
    }
    let mut i: usize = 0;
    while i < x.len()
        invariant
            i <= x.len(),
            x.len() == y.len(),
            x@ == a.spec_bytes(),
            y@ == b.spec_bytes(),
            forall|j: int| 0 <= j < i ==> x@[j] == y@[j],
        decreases x.len() - i,
    {
        if x[i] != y[i] {
            return false;
        }
        i += 1;
    }
    assert(x@ =~= y@);
    true
}

} // verus!
