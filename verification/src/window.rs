//! The windows of the shell: their roles, their names, and what can be
//! observed of each.

use vstd::prelude::*;
use crate::platform::Call;

verus! {

/// The role a window plays in the shell. The host looks a window up by the
/// name of its role.
#[derive(Clone, Copy, Debug, PartialEq, Eq)]
pub enum WindowRole {
    /// The window shown while the UI loads.
    Splashscreen,
    /// The window that carries the UI.
    Main,
}

impl WindowRole {
    /// The name under which the host knows the window of this role.
    pub open spec fn label_of(self) -> Seq<char> {
        match self {
            WindowRole::Splashscreen => "splashscreen"@,
            WindowRole::Main => "main"@,
        }
    }

    /// The name to hand to the host's lookup.
    pub fn label(&self) -> (name: &'static str)
        ensures
            name@ == self.label_of(),
    {
        match self {
            WindowRole::Splashscreen => "splashscreen",
            WindowRole::Main => "main",
        }
    }
}

/// The two roles never share a name, so a lookup by name finds the window
/// that was meant.
pub proof fn labels_are_distinct(a: WindowRole, b: WindowRole)
    ensures
        a.label_of() == b.label_of() <==> a == b,
{
    reveal_strlit("splashscreen");
    reveal_strlit("main");
    assert("splashscreen"@.len() == 12);
    assert("main"@.len() == 4);
}

/// What can be observed of a window that exists.
#[derive(Clone, Copy, Debug, PartialEq, Eq)]
pub struct Window {
    /// The window is shown on screen.
    pub visible: bool,
    /// The window covers the whole screen.
    pub fullscreen: bool,
    /// The window is reduced to its icon.
    pub minimized: bool,
    /// The fullscreen enforcement is subscribed to the window's events.
    pub watched: bool,
}

impl Window {
    /// A window as the host builds it: not shown, not fullscreen, not
    /// minimized, and with nothing subscribed to its events.
    pub open spec fn created() -> Window {
        Window { visible: false, fullscreen: false, minimized: false, watched: false }
    }

    /// Builds a window as the host does.
    pub fn new() -> (window: Window)
        ensures
            window == Window::created(),
    {
        Window { visible: false, fullscreen: false, minimized: false, watched: false }
    }

    /// What is left of the window once the host has made `call` on it:
    /// nothing after `Close`, and otherwise the window with the one flag set
    /// that the call is about.
    pub open spec fn after(self, call: Call) -> Option<Window> {
        match call {
            Call::Close => None,
            Call::Show => Some(Window { visible: true, ..self }),
            Call::Minimize => Some(Window { minimized: true, ..self }),
            Call::SetFullscreen => Some(Window { fullscreen: true, ..self }),
            Call::Subscribe => Some(Window { watched: true, ..self }),
        }
    }

    /// Applies `call` to the window.
    pub fn apply(self, call: Call) -> (left: Option<Window>)
        ensures
            left == self.after(call),
    {
        match call {
            Call::Close => None,
            Call::Show => Some(Window { visible: true, ..self }),
            Call::Minimize => Some(Window { minimized: true, ..self }),
            Call::SetFullscreen => Some(Window { fullscreen: true, ..self }),
            Call::Subscribe => Some(Window { watched: true, ..self }),
        }
    }
}

} // verus!
