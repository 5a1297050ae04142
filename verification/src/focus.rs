//! The two-slot focus history.

use vstd::prelude::*;

verus! {

/// Identifier that the window manager assigns to a window or container.
/// Nothing but equality is meaningful on it.
pub type WindowId = i64;

/// What a focus history holds: the window focused now and the one focused
/// immediately before it.
pub struct FocusPair {
    pub current: WindowId,
    pub previous: WindowId,
}

impl FocusPair {
    /// The pair at startup, when only the focused window is known. No earlier
    /// focus exists yet, so `previous` starts out equal to `current`: a switch
    /// requested before any focus change re-focuses the window that already
    /// has the focus.
    pub open spec fn seeded(initial: WindowId) -> FocusPair {
        FocusPair { current: initial, previous: initial }
    }

    /// The pair after the focus moved to `window`.
    pub open spec fn observed(self, window: WindowId) -> FocusPair {
        FocusPair { current: window, previous: self.current }
    }

    /// The pair after the focus moved through `windows`, oldest first.
    pub open spec fn replay(self, windows: Seq<WindowId>) -> FocusPair
        decreases windows.len(),
    {
        if windows.len() == 0 {
            self
        } else {
            self.replay(windows.drop_last()).observed(windows.last())
        }
    }
}

/// The focus history. Both slots change together in [`FocusHistory::observe`],
/// which needs exclusive access, so a reader never sees one slot updated and
/// the other not.
#[derive(Clone, Copy, Debug, PartialEq, Eq)]
pub struct FocusHistory {
    current: WindowId,
    previous: WindowId,
}

impl View for FocusHistory {
    type V = FocusPair;

    closed spec fn view(&self) -> FocusPair {
        FocusPair { current: self.current, previous: self.previous }
    }
}

impl FocusHistory {
    /// Starts a history from the window that has the focus at startup.
    pub fn new(initial: WindowId) -> (history: FocusHistory)
        ensures
            history@ == FocusPair::seeded(initial),
    {
        FocusHistory { current: initial, previous: initial }
    }

    /// Records that the focus moved to `window`.
    pub fn observe(&mut self, window: WindowId)
        ensures
            final(self)@ == old(self)@.observed(window),
    {
        self.previous = self.current;
        self.current = window;
    }

    /// The window that had the focus before the current one.
    pub fn read_previous(&self) -> (window: WindowId)
        ensures
            window == self@.previous,
    {
        self.previous
    }

    /// The window that has the focus now.
    pub fn current(&self) -> (window: WindowId)
        ensures
            window == self@.current,
    {
        self.current
    }
}

/// The focus moved through `windows`, oldest first, starting from `start`.
/// A reader that looks at the history after the first `seen` of these moves
/// finds in `current` the window of the latest move and in `previous` the
/// window that was current just before that move: the window of the move
/// before it, or the starting window when there was none. It never finds a
/// window that was not current at that moment.
pub proof fn previous_is_prior_current(start: FocusPair, windows: Seq<WindowId>, seen: int)
    requires
        1 <= seen <= windows.len(),
    ensures
        start.replay(windows.take(seen)).current == windows[seen - 1],
        start.replay(windows.take(seen)).previous == start.replay(windows.take(seen - 1)).current,
        start.replay(windows.take(seen)).previous == if seen == 1 {
            start.current
        } else {
            windows[seen - 2]
        },
{
    reveal_with_fuel(FocusPair::replay, 2);
}

} // verus!
