use vstd::prelude::*;

verus! {

/// Whether the floating space is active.
#[derive(Debug, Clone, Copy, PartialEq, Eq, Structural)]
pub enum FloatingActive {
    /// The scrolling space is active.
    No,
    /// The scrolling space is active, but the floating space should render on
    /// top, even if the active scrolling window is fullscreen.
    ///
    /// This is necessary for focus-follows-mouse that activates but doesn't
    /// raise the window to avoid being annoying.
    NoButRaised,
    /// The floating space is active.
    Yes,
}

impl FloatingActive {
    /// Whether the floating space has focus.
    pub open spec fn is_active(self) -> bool {
        self is Yes
    }

    /// Whether the floating space has focus.
    pub fn get(self) -> (r: bool)
        ensures
            r == self.is_active(),
    {
        self == Self::Yes
    }

    /// The state after a scrolling window was activated without raising it:
    /// focus moves to the scrolling space, but floating windows stay on top if
    /// they were focused before.
    pub open spec fn spec_after_activating_without_raising(self) -> FloatingActive {
        match self {
            FloatingActive::No => FloatingActive::No,
            FloatingActive::NoButRaised => FloatingActive::NoButRaised,
            FloatingActive::Yes => FloatingActive::NoButRaised,
        }
    }

    /// The state after a scrolling window was activated without raising it.
    pub fn after_activating_without_raising(self) -> (r: FloatingActive)
        ensures
            r == self.spec_after_activating_without_raising(),
            !r.is_active(),
    {
        match self {
            FloatingActive::No => FloatingActive::No,
            FloatingActive::NoButRaised => FloatingActive::NoButRaised,
            FloatingActive::Yes => FloatingActive::NoButRaised,
        }
    }
}

} // verus!
