//! The calls the controller asks of the host's window system, and the answers
//! the host gives.

use vstd::prelude::*;

verus! {

/// A call on one window.
#[derive(Clone, Copy, Debug, PartialEq, Eq)]
pub enum Call {
    /// Close the window for good.
    Close,
    /// Make the window visible.
    Show,
    /// Reduce the window to its icon.
    Minimize,
    /// Put the window in fullscreen mode.
    SetFullscreen,
    /// Subscribe the fullscreen enforcement to every event of the window.
    Subscribe,
}

impl Call {
    /// Whether the host can refuse the call on a window that exists.
    /// Subscribing returns nothing, so it cannot be refused.
    pub open spec fn refusable(self) -> bool {
        self != Call::Subscribe
    }

    /// Tells whether the host can refuse the call.
    pub fn can_be_refused(&self) -> (yes: bool)
        ensures
            yes == self.refusable(),
    {
        match self {
            Call::Subscribe => false,
            _ => true,
        }
    }
}

/// How the host answered one call.
#[derive(Clone, Copy, Debug, PartialEq, Eq)]
pub enum Outcome {
    /// The call was made and took effect.
    Done,
    /// No window of that role exists.
    NotFound,
    /// The window exists and the host refused the call.
    Refused,
}

} // verus!
