//! A switch: a knob that slides between an off and an on position to show a `bool`.
use vstd::prelude::*;
use crate::toggle::{Motion, Toggle};

verus! {

/// Centre of the knob when off, in thousandths of a pixel.
pub const KNOB_OFF: u32 = 10_000;
/// Centre of the knob when on, in thousandths of a pixel.
pub const KNOB_ON: u32 = 26_000;
/// How long the knob takes from one end to the other, in nanoseconds.
pub const SWITCH_CHANGE_TIME: u64 = 200_000_000;

/// The interaction and animation state of a switch.
#[derive(Clone, Copy, Debug, PartialEq, Eq, Structural)]
pub struct Switch {
    pub toggle: Toggle,
}

impl Switch {
    /// The toggle is well formed and slides between the two knob positions.
    pub open spec fn wf(self) -> bool {
        &&& self.toggle.wf()
        &&& self.toggle.motion == (Motion::Slide { off: KNOB_OFF, on: KNOB_ON })
    }

    /// A switch at rest.
    pub fn new() -> (r: Switch)
        ensures
            r.wf(),
            r.toggle.motion == (Motion::Slide { off: KNOB_OFF, on: KNOB_ON }),
            r.toggle.driver.duration == SWITCH_CHANGE_TIME,
            !r.toggle.driver.expires,
            r.toggle.driver.current is None,
            r.toggle.driver.next_token == 0,
            !r.toggle.interaction.active,
            !r.toggle.interaction.hot,
            !r.toggle.interaction.focused,
            !r.toggle.registered,
    {
        Switch { toggle: Toggle::new(Motion::Slide { off: KNOB_OFF, on: KNOB_ON }, SWITCH_CHANGE_TIME, false) }
    }

    /// Where the knob's centre is drawn for bound value `data`: the running
    /// slide's progress, else the resting point of `data`.
    pub fn knob_x(&self, data: bool) -> (r: u32)
        requires
            self.wf(),
        ensures
            r == self.toggle.shown(data),
            self.toggle.driver.current is None ==> r == if data { KNOB_ON } else { KNOB_OFF },
    {
        self.toggle.position(data)
    }
}

impl Default for Switch {
    fn default() -> (r: Switch)
        ensures
            r.wf(),
            r.toggle.motion == (Motion::Slide { off: KNOB_OFF, on: KNOB_ON }),
            r.toggle.driver.duration == SWITCH_CHANGE_TIME,
            !r.toggle.driver.expires,
            r.toggle.driver.current is None,
            r.toggle.driver.next_token == 0,
            !r.toggle.interaction.active,
            !r.toggle.interaction.hot,
            !r.toggle.interaction.focused,
            !r.toggle.registered,
    {
        Switch::new()
    }
}

} // verus!
