//! The state machine shared by toggle widgets: input events change the
//! interaction state and, for a completed gesture, the bound value; every
//! change of the bound value starts an animation toward it.
use vstd::prelude::*;
use crate::animation::{AnimationDriver, TickOutcome};
use crate::interaction::InteractionState;

verus! {

/// An event that the host delivers to a widget.
#[derive(Clone, Copy, Debug, PartialEq, Eq, Structural)]
pub enum Event {
    /// The pointer button went down inside the widget.
    Press,
    /// The pointer button went up, anywhere.
    Release,
    /// An animation frame for the run bearing `token`, `delta` nanoseconds after the last.
    Tick { token: u64, delta: u64 },
    /// The expiry timer of the run bearing `token` fired.
    Expire { token: u64 },
}

/// A notification about the widget's place in the host tree.
#[derive(Clone, Copy, Debug, PartialEq, Eq, Structural)]
pub enum Lifecycle {
    /// The widget joined the tree.
    WidgetAdded,
    /// The pointer entered (`true`) or left (`false`) the widget.
    HotChanged(bool),
    /// The widget gained (`true`) or lost (`false`) keyboard focus.
    FocusChanged(bool),
}

/// What the widget asks of the host after handling something.
#[derive(Clone, Copy, Debug, PartialEq, Eq, Structural)]
pub struct Requests {
    /// The visual output is stale.
    pub repaint: bool,
    /// Deliver one animation frame.
    pub anim_frame: bool,
    /// Deliver `Expire` with this token once the run's duration has passed.
    pub expiry: Option<u64>,
    /// Take the widget into focus traversal.
    pub register_focus: bool,
}

/// The decoration drawn around a widget.
#[derive(Clone, Copy, Debug, PartialEq, Eq, Structural)]
pub enum Overlay {
    /// An animation runs: a ripple of this size.
    Ripple(u32),
    /// Full-strength highlight for keyboard focus.
    Focus,
    /// Faint highlight while the pointer hovers.
    Hover,
    /// Nothing.
    Plain,
}

/// How the animated quantity moves.
#[derive(Clone, Copy, Debug, PartialEq, Eq, Structural)]
pub enum Motion {
    /// Every run grows from `from` to `to`, whatever the new value (a ripple).
    Ripple { from: u32, to: u32 },
    /// The quantity rests at `off` or `on` by the bound value and slides from
    /// where it is toward the new resting point (a knob).
    Slide { off: u32, on: u32 },
}

/// Interaction and animation state of one toggle widget.
#[derive(Clone, Copy, Debug, PartialEq, Eq, Structural)]
pub struct Toggle {
    pub interaction: InteractionState,
    pub driver: AnimationDriver,
    pub motion: Motion,
    /// The widget has asked to take part in focus traversal.
    pub registered: bool,
}

/// No request at all.
pub open spec fn nothing() -> Requests {
    Requests { repaint: false, anim_frame: false, expiry: None, register_focus: false }
}

impl Motion {
    /// Where the quantity rests while idle with bound value `value`.
    pub open spec fn resting(self, value: bool) -> u32 {
        match self {
            Motion::Ripple { from, to } => from,
            Motion::Slide { off, on } => if value { on } else { off },
        }
    }

    /// Where a run toward `goal` ends.
    pub open spec fn target(self, goal: bool) -> u32 {
        match self {
            Motion::Ripple { from, to } => to,
            Motion::Slide { off, on } => if goal { on } else { off },
        }
    }
}

impl Toggle {
    pub open spec fn wf(self) -> bool {
        self.driver.wf()
    }

    /// The rendered position of the animated quantity for bound value `value`:
    /// the run's progress while one is in flight, else the resting point.
    pub open spec fn shown(self, value: bool) -> u32 {
        match self.driver.current {
            Some(a) => a.progress,
            None => self.motion.resting(value),
        }
    }

    /// Where a run toward `goal` starts: a ripple starts afresh, a knob from
    /// where it is drawn now, which is the old value's resting point when idle.
    pub open spec fn launch_point(self, goal: bool) -> u32 {
        match self.motion {
            Motion::Ripple { from, to } => from,
            Motion::Slide { off, on } => self.shown(!goal),
        }
    }

    /// A run toward `value` is in flight.
    pub open spec fn heads_for(self, value: bool) -> bool {
        self.driver.current is Some && self.driver.current->Some_0.goal == value
    }

    /// The decoration for the current state: a running animation takes
    /// precedence over focus, and focus over hover.
    pub open spec fn overlay_of(self) -> Overlay {
        match self.driver.current {
            Some(a) => Overlay::Ripple(a.progress),
            None => if self.interaction.focused {
                Overlay::Focus
            } else if self.interaction.hot {
                Overlay::Hover
            } else {
                Overlay::Plain
            },
        }
    }

    /// The state after the host reports a change of the bound value from
    /// `old_data` to `data`.
    pub open spec fn updated(self, old_data: bool, data: bool) -> Toggle {
        if old_data != data && !self.heads_for(data) {
            self.launched(data)
        } else {
            self
        }
    }

    /// The state and bound value after each of `evs` in turn.
    pub open spec fn run(self, evs: Seq<Event>, data: bool) -> (Toggle, bool)
        decreases evs.len(),
    {
        if evs.len() == 0 {
            (self, data)
        } else {
            let (t, v) = self.run(evs.drop_last(), data);
            t.stepped(evs.last(), v)
        }
    }

    /// The state after a run toward `goal` starts.
    pub open spec fn launched(self, goal: bool) -> Toggle {
        Toggle {
            driver: self.driver.started(goal, self.launch_point(goal), self.motion.target(goal)),
            ..self
        }
    }

    /// The requests that a run started with `token` makes.
    pub open spec fn launch_requests(self, token: u64) -> Requests {
        Requests {
            repaint: true,
            anim_frame: true,
            expiry: if self.driver.expires { Some(token) } else { None },
            register_focus: false,
        }
    }

    /// The state and bound value after `ev`, from bound value `data`.
    pub open spec fn stepped(self, ev: Event, data: bool) -> (Toggle, bool) {
        match ev {
            Event::Press => (
                Toggle { interaction: InteractionState { active: true, ..self.interaction }, ..self },
                data,
            ),
            Event::Release => {
                let released = Toggle {
                    interaction: InteractionState { active: false, ..self.interaction },
                    ..self
                };
                if self.interaction.commits() {
                    (released.launched(!data), !data)
                } else {
                    (released, data)
                }
            },
            Event::Tick { token, delta } => (
                Toggle { driver: self.driver.ticked(token, delta), ..self },
                data,
            ),
            Event::Expire { token } => (
                Toggle { driver: self.driver.expired(token), ..self },
                data,
            ),
        }
    }

    /// A toggle at rest, animating by `motion` with runs of `duration` nanoseconds.
    pub fn new(motion: Motion, duration: u64, expires: bool) -> (r: Toggle)
        requires
            duration > 0,
        ensures
            r.wf(),
            r.motion == motion,
            r.driver.duration == duration,
            r.driver.expires == expires,
            r.driver.current is None,
            r.driver.next_token == 0,
            !r.interaction.active,
            !r.interaction.hot,
            !r.interaction.focused,
            !r.registered,
    {
        Toggle {
            interaction: InteractionState::new(),
            driver: AnimationDriver::new(duration, expires),
            motion,
            registered: false,
        }
    }

    /// The rendered position of the animated quantity for bound value `value`.
    pub fn position(&self, value: bool) -> (r: u32)
        ensures
            r == self.shown(value),
    {
        match self.driver.current {
            Some(a) => a.progress,
            None => match self.motion {
                Motion::Ripple { from, to } => from,
                Motion::Slide { off, on } => if value { on } else { off },
            },
        }
    }

    /// Starts a run toward `goal` and says what it needs from the host.
    fn launch(&mut self, goal: bool) -> (r: Requests)
        requires
            old(self).wf(),
            old(self).driver.next_token < u64::MAX,
        ensures
            *final(self) == old(self).launched(goal),
            final(self).wf(),
            r == old(self).launch_requests(old(self).driver.next_token),
    {
        let from = match self.motion {
            Motion::Ripple { from, to } => from,
            Motion::Slide { off, on } => self.position(!goal),
        };
        let to = match self.motion {
            Motion::Ripple { from, to } => to,
            Motion::Slide { off, on } => if goal { on } else { off },
        };
        let token = self.driver.start(goal, from, to);
        Requests {
            repaint: true,
            anim_frame: true,
            expiry: if self.driver.expires { Some(token) } else { None },
            register_focus: false,
        }
    }

    /// Handles one input event; `data` is the bound value, which only a
    /// completed gesture changes.
    pub fn event(&mut self, ev: Event, data: &mut bool) -> (r: Requests)
        requires
            old(self).wf(),
            old(self).driver.next_token < u64::MAX,
        ensures
            (*final(self), *final(data)) == old(self).stepped(ev, *old(data)),
            final(self).wf(),
            r == match ev {
                Event::Press => Requests { repaint: true, ..nothing() },
                Event::Release => if old(self).interaction.commits() {
                    old(self).launch_requests(old(self).driver.next_token)
                } else {
                    Requests { repaint: true, ..nothing() }
                },
                Event::Tick { token, delta } => match old(self).driver.current {
                    Some(a) => if a.token != token {
                        nothing()
                    } else if final(self).driver.current is None {
                        Requests { repaint: true, ..nothing() }
                    } else {
                        Requests { repaint: true, anim_frame: true, ..nothing() }
                    },
                    None => nothing(),
                },
                Event::Expire { token } => if old(self).driver.current is Some
                    && old(self).driver.current->Some_0.token == token {
                    Requests { repaint: true, ..nothing() }
                } else {
                    nothing()
                },
            },
    {
        let quiet = Requests { repaint: false, anim_frame: false, expiry: None, register_focus: false };
        match ev {
            Event::Press => {
                self.interaction.press();
                Requests { repaint: true, ..quiet }
            },
            Event::Release => {
                if self.interaction.release() {
                    *data = !*data;
                    self.launch(*data)
                } else {
                    Requests { repaint: true, ..quiet }
                }
            },
            Event::Tick { token, delta } => {
                match self.driver.tick(token, delta) {
                    TickOutcome::Stale => quiet,
                    TickOutcome::Moving => Requests { repaint: true, anim_frame: true, ..quiet },
                    TickOutcome::Finished => Requests { repaint: true, ..quiet },
                }
            },
            Event::Expire { token } => {
                if self.driver.expire(token) {
                    Requests { repaint: true, ..quiet }
                } else {
                    quiet
                }
            },
        }
    }
    /// Handles a notification from the host tree.
    pub fn lifecycle(&mut self, ev: Lifecycle) -> (r: Requests)
        ensures
            final(self).driver == old(self).driver,
            final(self).motion == old(self).motion,
            final(self).interaction.active == old(self).interaction.active,
            match ev {
                Lifecycle::WidgetAdded => {
                    &&& final(self).interaction == old(self).interaction
                    &&& final(self).registered
                    &&& r == Requests { register_focus: !old(self).registered, ..nothing() }
                },
                Lifecycle::HotChanged(h) => {
                    &&& final(self).interaction == InteractionState { hot: h, ..old(self).interaction }
                    &&& final(self).registered == old(self).registered
                    &&& r == Requests { repaint: true, ..nothing() }
                },
                Lifecycle::FocusChanged(f) => {
                    &&& final(self).interaction == InteractionState { focused: f, ..old(self).interaction }
                    &&& final(self).registered == old(self).registered
                    &&& r == Requests { repaint: true, ..nothing() }
                },
            },
    {
        let quiet = Requests { repaint: false, anim_frame: false, expiry: None, register_focus: false };
        match ev {
            Lifecycle::WidgetAdded => {
                let first = !self.registered;
                self.registered = true;
                Requests { register_focus: first, ..quiet }
            },
            Lifecycle::HotChanged(h) => {
                self.interaction.hot = h;
                Requests { repaint: true, ..quiet }
            },
            Lifecycle::FocusChanged(f) => {
                self.interaction.focused = f;
                Requests { repaint: true, ..quiet }
            },
        }
    }

    /// The host reports that the bound value went from `old_data` to `data`.
    /// A change starts a run toward the new value unless one toward it is
    /// already in flight (the one a completed gesture started).
    pub fn update(&mut self, old_data: bool, data: bool) -> (r: Requests)
        requires
            old(self).wf(),
            old(self).driver.next_token < u64::MAX,
        ensures
            final(self).wf(),
            *final(self) == old(self).updated(old_data, data),
            r == if old_data != data && !old(self).heads_for(data) {
                old(self).launch_requests(old(self).driver.next_token)
            } else {
                Requests { repaint: true, ..nothing() }
            },
            old_data != data ==> final(self).heads_for(data),
    {
        let under_way = match self.driver.current {
            Some(a) => a.goal == data,
            None => false,
        };
        if old_data != data && !under_way {
            self.launch(data)
        } else {
            Requests { repaint: true, anim_frame: false, expiry: None, register_focus: false }
        }
    }

    /// The decoration that paint draws around the widget.
    pub fn overlay(&self) -> (r: Overlay)
        ensures
            r == self.overlay_of(),
    {
        match self.driver.current {
            Some(a) => Overlay::Ripple(a.progress),
            None => if self.interaction.focused {
                Overlay::Focus
            } else if self.interaction.hot {
                Overlay::Hover
            } else {
                Overlay::Plain
            },
        }
    }
}

/// Some press in `evs` has had no release after it, or, with none, the gesture
/// was already in progress (`active`) and no release came.
pub open spec fn press_outstanding(active: bool, evs: Seq<Event>) -> bool {
    ||| exists|i: int|
        0 <= i < evs.len() && #[trigger] evs[i] is Press && forall|j: int|
            i < j < evs.len() ==> !(#[trigger] evs[j] is Release)
    ||| active && forall|j: int| 0 <= j < evs.len() ==> !(#[trigger] evs[j] is Release)
}

/// Over any sequence of events, the widget is active exactly while a press
/// has come with no release after it, and is never active right after a release.
pub proof fn lemma_active_between_press_and_release(t: Toggle, evs: Seq<Event>, data: bool)
    ensures
        t.run(evs, data).0.interaction.active == press_outstanding(t.interaction.active, evs),
        evs.len() > 0 && evs.last() is Release ==> !t.run(evs, data).0.interaction.active,
    decreases evs.len(),
{
    if evs.len() > 0 {
        let init = evs.drop_last();
        let n = evs.len() - 1;
        lemma_active_between_press_and_release(t, init, data);
        let e = evs[n];
        assert(forall|j: int| 0 <= j < n ==> init[j] == evs[j]);
        if e is Press {
            assert(press_outstanding(t.interaction.active, evs)) by {
                assert(evs[n] is Press);
            }
        } else if e is Release {
            assert(evs[n] is Release);
            if press_outstanding(t.interaction.active, evs) {
                if exists|i: int|
                    0 <= i < evs.len() && #[trigger] evs[i] is Press && forall|j: int|
                        i < j < evs.len() ==> !(#[trigger] evs[j] is Release) {
                    let i = choose|i: int|
                        0 <= i < evs.len() && #[trigger] evs[i] is Press && forall|j: int|
                            i < j < evs.len() ==> !(#[trigger] evs[j] is Release);
                    assert(i != n);
                    assert(!(evs[n] is Release));
                }
            }
        } else {
            assert(!(evs[n] is Press) && !(evs[n] is Release));
            if press_outstanding(t.interaction.active, init) {
                if exists|i: int|
                    0 <= i < init.len() && #[trigger] init[i] is Press && forall|j: int|
                        i < j < init.len() ==> !(#[trigger] init[j] is Release) {
                    let i = choose|i: int|
                        0 <= i < init.len() && #[trigger] init[i] is Press && forall|j: int|
                            i < j < init.len() ==> !(#[trigger] init[j] is Release);
                    assert(evs[i] is Press);
                    assert forall|j: int| i < j < evs.len() implies !(#[trigger] evs[j] is Release) by {
                        if j < n {
                            assert(init[j] == evs[j]);
                        }
                    }
                } else {
                    assert forall|j: int| 0 <= j < evs.len() implies !(#[trigger] evs[j] is Release) by {
                        if j < n {
                            assert(init[j] == evs[j]);
                        }
                    }
                }
            }
            if press_outstanding(t.interaction.active, evs) {
                if exists|i: int|
                    0 <= i < evs.len() && #[trigger] evs[i] is Press && forall|j: int|
                        i < j < evs.len() ==> !(#[trigger] evs[j] is Release) {
                    let i = choose|i: int|
                        0 <= i < evs.len() && #[trigger] evs[i] is Press && forall|j: int|
                            i < j < evs.len() ==> !(#[trigger] evs[j] is Release);
                    assert(i != n);
                    assert(init[i] is Press);
                    assert forall|j: int| i < j < init.len() implies !(#[trigger] init[j] is Release) by {
                        assert(init[j] == evs[j]);
                    }
                } else {
                    assert forall|j: int| 0 <= j < init.len() implies !(#[trigger] init[j] is Release) by {
                        assert(init[j] == evs[j]);
                    }
                }
            }
        }
    }
}

/// The bound value changes on exactly one kind of step: a release that
/// completes a gesture (pressed on the widget, released over it), and then it
/// flips; a release away from the widget leaves it as it was.
pub proof fn lemma_only_completed_release_flips(t: Toggle, ev: Event, data: bool)
    ensures
        t.stepped(ev, data).1 == (data != (ev is Release && t.interaction.commits())),
{
}

/// A change of the bound value made outside the widget starts the same run
/// that a completed gesture toward that value starts.
pub proof fn lemma_external_change_animates_like_release(t: Toggle, data: bool)
    requires
        t.interaction.commits(),
        !t.heads_for(!data),
    ensures
        t.updated(data, !data).driver == t.stepped(Event::Release, data).0.driver,
        t.updated(data, !data).heads_for(!data),
{
}

} // verus!
