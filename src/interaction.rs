//! Interaction state that a widget derives from the input the host delivers.
use vstd::prelude::*;

verus! {

/// Transient interaction state of one widget instance.
#[derive(Clone, Copy, Debug, PartialEq, Eq, Structural)]
pub struct InteractionState {
    /// A pointer-down gesture that began on the widget is in progress.
    pub active: bool,
    /// The pointer is over the widget's hit region, as the host last reported.
    pub hot: bool,
    /// Keyboard focus rests on the widget.
    pub focused: bool,
}

impl InteractionState {
    /// A release in this state completes a gesture: it began on the widget
    /// and the pointer is still over it.
    pub open spec fn commits(self) -> bool {
        self.active && self.hot
    }

    /// A widget that nobody has touched yet.
    pub fn new() -> (r: InteractionState)
        ensures
            !r.active,
            !r.hot,
            !r.focused,
    {
        InteractionState { active: false, hot: false, focused: false }
    }

    /// The pointer went down on the widget.
    pub fn press(&mut self)
        ensures
            *final(self) == (InteractionState { active: true, ..*old(self) }),
    {
        self.active = true;
    }

    /// The pointer went up; returns whether this completed a gesture.
    pub fn release(&mut self) -> (committed: bool)
        ensures
            *final(self) == (InteractionState { active: false, ..*old(self) }),
            committed == old(self).commits(),
    {
        let committed = self.active && self.hot;
        self.active = false;
        committed
    }
}

} // verus!
