//! A checkbox: a box that toggles a `bool`, with a ripple that grows from the
//! box on every change and disappears when its timer fires.
use vstd::prelude::*;
use crate::theme::ColorKey;
use crate::toggle::{Motion, Toggle};

verus! {

/// Room around the box, in thousandths of a pixel.
pub const EXTRA_PADDING: u32 = 25_000;
/// Side of the box, the host's basic widget height, in thousandths of a pixel.
pub const BOX_SIZE: u32 = 18_000;
/// Radius at which a ripple starts, in thousandths of a pixel.
pub const RIPPLE_FROM: u32 = 10_000;
/// Radius that a ripple reaches, half the padded box, in thousandths of a pixel.
pub const RIPPLE_TO: u32 = (BOX_SIZE + EXTRA_PADDING) / 2;
/// How long a ripple lasts, in nanoseconds.
pub const RIPPLE_TIME: u64 = 200_000_000;

/// The interaction and animation state of a checkbox.
#[derive(Clone, Copy, Debug, PartialEq, Eq, Structural)]
pub struct Checkbox {
    pub toggle: Toggle,
}

impl Checkbox {
    /// The toggle is well formed and ripples between the two radii.
    pub open spec fn wf(self) -> bool {
        &&& self.toggle.wf()
        &&& self.toggle.motion == (Motion::Ripple { from: RIPPLE_FROM, to: RIPPLE_TO })
    }

    /// A checkbox at rest whose ripples end on their expiry timer.
    pub fn new() -> (r: Checkbox)
        ensures
            r.wf(),
            r.toggle.motion == (Motion::Ripple { from: RIPPLE_FROM, to: RIPPLE_TO }),
            r.toggle.driver.duration == RIPPLE_TIME,
            r.toggle.driver.expires,
            r.toggle.driver.current is None,
            r.toggle.driver.next_token == 0,
            !r.toggle.interaction.active,
            !r.toggle.interaction.hot,
            !r.toggle.interaction.focused,
            !r.toggle.registered,
    {
        Checkbox { toggle: Toggle::new(Motion::Ripple { from: RIPPLE_FROM, to: RIPPLE_TO }, RIPPLE_TIME, true) }
    }

    /// The colour of the box's border: the primary colour when checked.
    pub fn border_color(data: bool) -> (r: ColorKey)
        ensures
            r == if data { ColorKey::Primary } else { ColorKey::BorderLight },
    {
        if data { ColorKey::Primary } else { ColorKey::BorderLight }
    }
}

} // verus!
