//! What the window manager's event stream delivers, reduced to what the
//! daemon reads.

use vstd::prelude::*;
use crate::focus::WindowId;

verus! {

/// What happened to a window.
#[derive(Clone, Copy, Debug, PartialEq, Eq, Structural)]
pub enum WindowChange {
    New,
    Close,
    Focus,
    Title,
    FullscreenMode,
    Move,
    Floating,
    Urgent,
    Mark,
}

/// One item of the event stream.
#[derive(Clone, Copy, Debug, PartialEq, Eq, Structural)]
pub enum Notification {
    /// Something happened to the window `container`.
    Window { change: WindowChange, container: WindowId },
    /// An event that is not about a window.
    Other,
    /// The stream gave an item that could not be decoded, or ended.
    Lost,
}

impl Notification {
    /// The window that this notification reports as newly focused, if it
    /// reports a focus change at all.
    pub open spec fn focus_target(self) -> Option<WindowId> {
        match self {
            Notification::Window { change: WindowChange::Focus, container } => Some(container),
            _ => None,
        }
    }

    /// The window that this notification reports as newly focused, if it
    /// reports a focus change at all.
    pub fn focused_window(&self) -> (target: Option<WindowId>)
        ensures
            target == self.focus_target(),
    {
        match self {
            Notification::Window { change: WindowChange::Focus, container } => Some(*container),
            _ => None,
        }
    }
}

} // verus!
