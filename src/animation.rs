//! The animation driver: at most one animation in flight per widget, advanced
//! by ticks that carry the elapsed time, and correlated with its callbacks by
//! a token that a newer animation invalidates.
use vstd::prelude::*;
use vstd::arithmetic::div_mod::{lemma_div_is_ordered, lemma_div_multiples_vanish};
use vstd::arithmetic::mul::{lemma_mul_inequality, lemma_mul_nonnegative};

verus! {

/// One running animation.
#[derive(Clone, Copy, Debug, PartialEq, Eq, Structural)]
pub struct Animation {
    /// Identifies this run; callbacks that carry another token are stale.
    pub token: u64,
    /// The bound value that this run moves toward.
    pub goal: bool,
    /// Where `progress` started.
    pub start: u32,
    /// Where `progress` ends.
    pub target: u32,
    /// Time delivered by ticks so far, always below the driver's duration.
    pub elapsed: u64,
    /// The current position, on the way from `start` to `target`.
    pub progress: u32,
}

/// What a tick did.
#[derive(Clone, Copy, Debug, PartialEq, Eq, Structural)]
pub enum TickOutcome {
    /// The tick carried a token that is not the running animation's: nothing changed.
    Stale,
    /// The animation moved and has not reached its target: another tick is wanted.
    Moving,
    /// The animation reached its target and the driver is idle again.
    Finished,
}

/// The animation state of one widget, idle or running.
#[derive(Clone, Copy, Debug, PartialEq, Eq, Structural)]
pub struct AnimationDriver {
    /// Time that a run takes from start to target, in nanoseconds.
    pub duration: u64,
    /// Runs of this driver also end by a timer that the host fires after `duration`.
    pub expires: bool,
    /// The token that the next run gets; every token handed out is below it.
    pub next_token: u64,
    /// The running animation, or `None` while idle.
    pub current: Option<Animation>,
}

/// The position after `elapsed` of `duration`, moving at a constant rate
/// from `start` toward `target` and resting there once the time is up.
pub open spec fn position_at(start: u32, target: u32, elapsed: u64, duration: u64) -> int {
    if elapsed >= duration {
        target as int
    } else if start <= target {
        start + (target - start) * (elapsed as int) / (duration as int)
    } else {
        start - (start - target) * (elapsed as int) / (duration as int)
    }
}

/// `p` lies on the closed segment from `a` to `b`, whichever way it points.
pub open spec fn between(a: int, p: int, b: int) -> bool {
    (a <= p && p <= b) || (b <= p && p <= a)
}

/// The time after a tick of `delta` on top of `elapsed`, capped at `duration`.
pub open spec fn advanced(elapsed: u64, delta: u64, duration: u64) -> u64 {
    if elapsed as int + delta as int >= duration as int {
        duration
    } else {
        (elapsed + delta) as u64
    }
}

impl Animation {
    pub open spec fn wf(self, duration: u64) -> bool {
        &&& self.elapsed < duration
        &&& self.progress as int == position_at(self.start, self.target, self.elapsed, duration)
    }
}

impl AnimationDriver {
    pub open spec fn wf(self) -> bool {
        &&& self.duration > 0
        &&& match self.current {
            Some(a) => a.token < self.next_token && a.wf(self.duration),
            None => true,
        }
    }

    /// The driver after a new run from `start` to `target` toward `goal` begins,
    /// replacing whatever ran before.
    pub open spec fn started(self, goal: bool, start: u32, target: u32) -> AnimationDriver {
        AnimationDriver {
            duration: self.duration,
            expires: self.expires,
            next_token: (self.next_token + 1) as u64,
            current: Some(
                Animation {
                    token: self.next_token,
                    goal,
                    start,
                    target,
                    elapsed: 0,
                    progress: start,
                },
            ),
        }
    }

    /// The driver after a tick bearing `token` that reports `delta` nanoseconds.
    pub open spec fn ticked(self, token: u64, delta: u64) -> AnimationDriver {
        match self.current {
            Some(a) => if a.token == token {
                let e = advanced(a.elapsed, delta, self.duration);
                if e == self.duration {
                    AnimationDriver { current: None, ..self }
                } else {
                    AnimationDriver {
                        current: Some(
                            Animation {
                                elapsed: e,
                                progress: position_at(a.start, a.target, e, self.duration) as u32,
                                ..a
                            },
                        ),
                        ..self
                    }
                }
            } else {
                self
            },
            None => self,
        }
    }

    /// The driver after the expiry timer bearing `token` fires.
    pub open spec fn expired(self, token: u64) -> AnimationDriver {
        match self.current {
            Some(a) => if a.token == token {
                AnimationDriver { current: None, ..self }
            } else {
                self
            },
            None => self,
        }
    }

    /// An idle driver whose runs take `duration` nanoseconds.
    pub fn new(duration: u64, expires: bool) -> (r: AnimationDriver)
        requires
            duration > 0,
        ensures
            r.wf(),
            r.duration == duration,
            r.expires == expires,
            r.current is None,
            r.next_token == 0,
    {
        AnimationDriver { duration, expires, next_token: 0, current: None }
    }

    /// Starts a run from `start` to `target`, preempting any run in flight, and
    /// returns its fresh token.
    pub fn start(&mut self, goal: bool, start: u32, target: u32) -> (token: u64)
        requires
            old(self).wf(),
            old(self).next_token < u64::MAX,
        ensures
            *final(self) == old(self).started(goal, start, target),
            final(self).wf(),
            token == old(self).next_token,
            match old(self).current {
                Some(a) => a.token != token,
                None => true,
            },
    {
        let token = self.next_token;
        self.next_token = token + 1;
        self.current = Some(
            Animation { token, goal, start, target, elapsed: 0, progress: start },
        );
        token
    }

    /// Delivers a tick bearing `token` with `delta` nanoseconds since the last one.
    pub fn tick(&mut self, token: u64, delta: u64) -> (r: TickOutcome)
        requires
            old(self).wf(),
        ensures
            *final(self) == old(self).ticked(token, delta),
            final(self).wf(),
            r == match old(self).current {
                Some(a) => if a.token != token {
                    TickOutcome::Stale
                } else if final(self).current is None {
                    TickOutcome::Finished
                } else {
                    TickOutcome::Moving
                },
                None => TickOutcome::Stale,
            },
    {
        match self.current {
            Some(a) => {
                if a.token != token {
                    return TickOutcome::Stale;
                }
                let e: u64 = if delta >= self.duration - a.elapsed {
                    self.duration
                } else {
                    a.elapsed + delta
                };
                if e == self.duration {
                    self.current = None;
                    TickOutcome::Finished
                } else {
                    let p = position(a.start, a.target, e, self.duration);
                    self.current = Some(Animation { elapsed: e, progress: p, ..a });
                    TickOutcome::Moving
                }
            },
            None => TickOutcome::Stale,
        }
    }

    /// Delivers the expiry timer bearing `token`: a matching one ends the run.
    pub fn expire(&mut self, token: u64) -> (ended: bool)
        requires
            old(self).wf(),
        ensures
            *final(self) == old(self).expired(token),
            final(self).wf(),
            ended == (old(self).current is Some && old(self).current->Some_0.token == token),
    {
        match self.current {
            Some(a) => {
                if a.token == token {
                    self.current = None;
                    true
                } else {
                    false
                }
            },
            None => false,
        }
    }
}

/// A tick for the running animation moves its progress toward the target and
/// never past it, whatever time the tick reports: the run either ends at its
/// target or its new progress lies between the old progress and the target.
pub proof fn lemma_tick_moves_toward_target(d: AnimationDriver, delta: u64)
    requires
        d.wf(),
        d.current is Some,
    ensures
        ({
            let a = d.current->Some_0;
            match d.ticked(a.token, delta).current {
                Some(b) => {
                    &&& b.token == a.token
                    &&& b.start == a.start
                    &&& b.target == a.target
                    &&& between(a.progress as int, b.progress as int, a.target as int)
                    &&& between(a.start as int, b.progress as int, a.target as int)
                },
                None => advanced(a.elapsed, delta, d.duration) == d.duration,
            }
        }),
{
    let a = d.current->Some_0;
    let e = advanced(a.elapsed, delta, d.duration);
    if e < d.duration {
        let dist = if a.start <= a.target { a.target - a.start } else { a.start - a.target };
        lemma_scaled_bounds(dist as int, a.elapsed as int, e as int, d.duration as int);
    }
}

/// A tick or expiry whose token is not the running animation's changes nothing.
pub proof fn lemma_stale_token_is_ignored(d: AnimationDriver, token: u64, delta: u64)
    requires
        !(d.current is Some && d.current->Some_0.token == token),
    ensures
        d.ticked(token, delta) == d,
        d.expired(token) == d,
{
}

/// Starting a run while another is in flight restarts progress at the new
/// start, and the old run's token is stale from then on.
pub proof fn lemma_preemption_invalidates_token(
    d: AnimationDriver,
    goal: bool,
    start: u32,
    target: u32,
    delta: u64,
)
    requires
        d.wf(),
        d.current is Some,
        d.next_token < u64::MAX,
    ensures
        ({
            let old_token = d.current->Some_0.token;
            let n = d.started(goal, start, target);
            &&& n.current->Some_0.progress == start
            &&& n.current->Some_0.token != old_token
            &&& n.ticked(old_token, delta) == n
            &&& n.expired(old_token) == n
        }),
{
}

/// An idle driver stays idle under any tick or expiry: only a new start
/// makes it run again.
pub proof fn lemma_idle_stays_idle(d: AnimationDriver, token: u64, delta: u64)
    requires
        d.current is None,
    ensures
        d.ticked(token, delta).current is None,
        d.expired(token).current is None,
{
}

/// `d * e / duration` stays within `[0, d]` and grows with `e`.
proof fn lemma_scaled_bounds(d: int, e1: int, e2: int, duration: int)
    requires
        0 <= e1 <= e2 <= duration,
        0 < duration,
    ensures
        d >= 0 ==> 0 <= d * e1 / duration <= d * e2 / duration <= d,
{
    if d >= 0 {
        lemma_mul_nonnegative(d, e1);
        lemma_mul_inequality(e1, e2, d);
        lemma_mul_inequality(e2, duration, d);
        assert(e1 * d == d * e1 && e2 * d == d * e2 && duration * d == d * duration) by {
            vstd::arithmetic::mul::lemma_mul_is_commutative(e1, d);
            vstd::arithmetic::mul::lemma_mul_is_commutative(e2, d);
            vstd::arithmetic::mul::lemma_mul_is_commutative(duration, d);
        }
        lemma_div_is_ordered(0, d * e1, duration);
        lemma_div_is_ordered(d * e1, d * e2, duration);
        lemma_div_is_ordered(d * e2, d * duration, duration);
        lemma_div_multiples_vanish(d, duration);
        assert(duration * d == d * duration) by {
            vstd::arithmetic::mul::lemma_mul_is_commutative(duration, d);
        }
    }
}

/// Computes `position_at` without overflow.
fn position(start: u32, target: u32, elapsed: u64, duration: u64) -> (r: u32)
    requires
        duration > 0,
    ensures
        r as int == position_at(start, target, elapsed, duration),
{
    if elapsed >= duration {
        return target;
    }
    let distance: u32 = if start <= target { target - start } else { start - target };
    proof {
        lemma_scaled_bounds(distance as int, elapsed as int, duration as int, duration as int);
        vstd::arithmetic::mul::lemma_mul_upper_bound(
            distance as int,
            u32::MAX as int,
            elapsed as int,
            u64::MAX as int,
        );
        assert((u32::MAX as int) * (u64::MAX as int) < u128::MAX) by (nonlinear_arith);
    }
    let scaled: u128 = (distance as u128) * (elapsed as u128);
    let step: u128 = scaled / (duration as u128);
    if start <= target {
        start + step as u32
    } else {
        start - step as u32
    }
}

} // verus!
