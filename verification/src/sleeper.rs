//! Timing of the sampling cycle.
//!
//! A `Sleeper` holds the instant at which the current cycle began and works
//! out how long the device may suspend so that cycles keep a constant
//! period, however long the work of a cycle took. Instants and durations are
//! microseconds on the caller's monotonic clock. The sleeper suspends
//! nothing itself: it hands back a `Suspend` for the caller to carry out.

use vstd::prelude::*;

verus! {

/// A suspension that the caller is to carry out.
#[derive(Clone, Copy, Debug, PartialEq, Eq, Structural)]
pub enum Suspend {
    /// Pause in place for `usec` microseconds; execution resumes afterwards.
    Light { usec: u64 },
    /// Power off for `usec` microseconds; the device starts over on wake.
    PowerOff { usec: u64 },
}

impl Suspend {
    /// How long the suspension lasts, in microseconds.
    pub open spec fn length(&self) -> u64 {
        match self {
            Suspend::Light { usec } => *usec,
            Suspend::PowerOff { usec } => *usec,
        }
    }

    /// How long the suspension lasts, in microseconds.
    pub fn usec(&self) -> (r: u64)
        ensures
            r == self.length(),
    {
        match self {
            Suspend::Light { usec } => *usec,
            Suspend::PowerOff { usec } => *usec,
        }
    }
}

/// `x`, raised to `min_sleep` and then cut to `max_sleep`.
pub open spec fn clamp_sleep(x: int, min_sleep: int, max_sleep: int) -> int {
    let raised = if x >= min_sleep {
        x
    } else {
        min_sleep
    };
    if raised <= max_sleep {
        raised
    } else {
        max_sleep
    }
}

/// Time that has passed at `now` since the cycle began at `t0`; none where
/// no beginning is on record.
pub open spec fn elapsed_since(t0: Option<u64>, now: u64) -> int {
    match t0 {
        Some(t) => if now >= t {
            now - t
        } else {
            0
        },
        None => 0,
    }
}

/// What is left of the period `d` at `now`, within the bounds of the sleeper.
pub open spec fn remaining(t0: Option<u64>, now: u64, d: u64, min_sleep: u64, max_sleep: u64) -> int {
    let e = elapsed_since(t0, now);
    let rest = if d >= e {
        d - e
    } else {
        0
    };
    clamp_sleep(rest, min_sleep as int, max_sleep as int)
}

/// Law: with `min_sleep <= max_sleep`, what is left of any period lies
/// within `[min_sleep, max_sleep]`, for periods below and above the bounds
/// alike.
pub proof fn law_remaining_within_bounds(
    t0: Option<u64>,
    now: u64,
    d: u64,
    min_sleep: u64,
    max_sleep: u64,
)
    requires
        min_sleep <= max_sleep,
    ensures
        min_sleep <= remaining(t0, now, d, min_sleep, max_sleep) <= max_sleep,
{
}

/// Law: where no time has passed since the cycle began, asking twice at the
/// same instant gives the clamped period both times: the first answer
/// forgets the beginning, so the second is no larger than the first.
pub proof fn law_remaining_twice(t0: Option<u64>, now: u64, d: u64, min_sleep: u64, max_sleep: u64)
    requires
        t0 is None || t0 == Some(now),
    ensures
        remaining(t0, now, d, min_sleep, max_sleep) == clamp_sleep(
            d as int,
            min_sleep as int,
            max_sleep as int,
        ),
        remaining(None, now, d, min_sleep, max_sleep) <= remaining(
            t0,
            now,
            d,
            min_sleep,
            max_sleep,
        ),
{
}

/// Keeps the beginning of the current cycle and the bounds of every sleep.
#[derive(Clone, Copy, Debug)]
pub struct Sleeper {
    t0: Option<u64>,
    min_sleep: u64,
    max_sleep: u64,
}

impl Sleeper {
    /// The beginning of the current cycle, where one is on record.
    pub closed spec fn t0(&self) -> Option<u64> {
        self.t0
    }

    /// The shortest sleep.
    pub closed spec fn min_sleep(&self) -> u64 {
        self.min_sleep
    }

    /// The longest sleep.
    pub closed spec fn max_sleep(&self) -> u64 {
        self.max_sleep
    }

    /// A sleeper with the given bounds and no beginning on record.
    pub fn new(min_sleep: u64, max_sleep: u64) -> (r: Self)
        ensures
            r.t0() is None,
            r.min_sleep() == min_sleep,
            r.max_sleep() == max_sleep,
    {
        Sleeper { t0: None, min_sleep, max_sleep }
    }

    /// Records `now - sub` as the beginning of the cycle, unless a beginning
    /// is on record already. `sub` is time that had passed before the caller
    /// could ask.
    pub fn set_t0_now_sub_if_unset(&mut self, now: u64, sub: u64)
        requires
            sub <= now,
        ensures
            final(self).t0() == match old(self).t0() {
                Some(t) => Some(t),
                None => Some((now - sub) as u64),
            },
            final(self).min_sleep() == old(self).min_sleep(),
            final(self).max_sleep() == old(self).max_sleep(),
    {
        if self.t0.is_none() {
            self.t0 = Some(now - sub);
        }
    }

    /// What is left of the period `d` at `now`. The beginning of the cycle
    /// is forgotten: the next cycle starts afresh.
    pub fn get_remaining(&mut self, now: u64, d: u64) -> (r: u64)
        ensures
            r == remaining(old(self).t0(), now, d, old(self).min_sleep(), old(self).max_sleep()),
            old(self).min_sleep() <= old(self).max_sleep() ==> old(self).min_sleep() <= r <= old(
                self,
            ).max_sleep(),
            final(self).t0() is None,
            final(self).min_sleep() == old(self).min_sleep(),
            final(self).max_sleep() == old(self).max_sleep(),
    {
        let t0 = match self.t0.take() {
            Some(t) => t,
            None => now,
        };
        let elapsed = now.saturating_sub(t0);
        let rest = d.saturating_sub(elapsed);
        let raised = if rest >= self.min_sleep {
            rest
        } else {
            self.min_sleep
        };
        if raised <= self.max_sleep {
            raised
        } else {
            self.max_sleep
        }
    }

    /// A light suspend for what is left of the period `d`.
    pub fn sleep_up_to(&mut self, now: u64, d: u64) -> (r: Suspend)
        ensures
            r == (Suspend::Light {
                usec: remaining(
                    old(self).t0(),
                    now,
                    d,
                    old(self).min_sleep(),
                    old(self).max_sleep(),
                ) as u64,
            }),
            final(self).t0() is None,
            final(self).min_sleep() == old(self).min_sleep(),
            final(self).max_sleep() == old(self).max_sleep(),
    {
        let usec = self.get_remaining(now, d);
        Suspend::Light { usec }
    }

    /// A power-off for what is left of the period `d`.
    pub fn reset_then_sleep_up_to(&mut self, now: u64, d: u64) -> (r: Suspend)
        ensures
            r == (Suspend::PowerOff {
                usec: remaining(
                    old(self).t0(),
                    now,
                    d,
                    old(self).min_sleep(),
                    old(self).max_sleep(),
                ) as u64,
            }),
            final(self).t0() is None,
            final(self).min_sleep() == old(self).min_sleep(),
            final(self).max_sleep() == old(self).max_sleep(),
    {
        let usec = self.get_remaining(now, d);
        Suspend::PowerOff { usec }
    }
}

/// A sleeper together with the periods of the three kinds of cycle.
#[derive(Clone, Copy, Debug)]
pub struct SleeperWithPresets {
    sleeper: Sleeper,
    short_sleep_dur: u64,
    low_power_dur: u64,
    very_low_power_dur: u64,
}

impl SleeperWithPresets {
    /// The sleeper inside.
    pub closed spec fn sleeper(&self) -> Sleeper {
        self.sleeper
    }

    /// Period of a cycle in normal operation.
    pub closed spec fn short_sleep_dur(&self) -> u64 {
        self.short_sleep_dur
    }

    /// Period of a cycle in low-power mode.
    pub closed spec fn low_power_dur(&self) -> u64 {
        self.low_power_dur
    }

    /// Period of a cycle in very-low-power mode.
    pub closed spec fn very_low_power_dur(&self) -> u64 {
        self.very_low_power_dur
    }

    /// Whether `self` differs from `before` in nothing but the beginning of
    /// the cycle, which is forgotten.
    pub open spec fn consumed_from(&self, before: Self) -> bool {
        &&& self.sleeper().t0() is None
        &&& self.sleeper().min_sleep() == before.sleeper().min_sleep()
        &&& self.sleeper().max_sleep() == before.sleeper().max_sleep()
        &&& self.short_sleep_dur() == before.short_sleep_dur()
        &&& self.low_power_dur() == before.low_power_dur()
        &&& self.very_low_power_dur() == before.very_low_power_dur()
    }

    /// What is left of the period `d` at `now`.
    pub open spec fn remaining_of(&self, now: u64, d: u64) -> u64 {
        remaining(self.sleeper().t0(), now, d, self.sleeper().min_sleep(), self.sleeper().max_sleep()) as u64
    }

    /// A sleeper with the given bounds and periods and no beginning on
    /// record.
    pub fn new(
        min_sleep: u64,
        max_sleep: u64,
        short_sleep_dur: u64,
        low_power_dur: u64,
        very_low_power_dur: u64,
    ) -> (r: Self)
        ensures
            r.sleeper().t0() is None,
            r.sleeper().min_sleep() == min_sleep,
            r.sleeper().max_sleep() == max_sleep,
            r.short_sleep_dur() == short_sleep_dur,
            r.low_power_dur() == low_power_dur,
            r.very_low_power_dur() == very_low_power_dur,
    {
        SleeperWithPresets {
            sleeper: Sleeper::new(min_sleep, max_sleep),
            short_sleep_dur,
            low_power_dur,
            very_low_power_dur,
        }
    }

    /// Records `now - sub` as the beginning of the cycle, unless a beginning
    /// is on record already.
    pub fn set_t0_now_sub_if_unset(&mut self, now: u64, sub: u64)
        requires
            sub <= now,
        ensures
            final(self).sleeper().t0() == match old(self).sleeper().t0() {
                Some(t) => Some(t),
                None => Some((now - sub) as u64),
            },
            final(self).sleeper().min_sleep() == old(self).sleeper().min_sleep(),
            final(self).sleeper().max_sleep() == old(self).sleeper().max_sleep(),
            final(self).short_sleep_dur() == old(self).short_sleep_dur(),
            final(self).low_power_dur() == old(self).low_power_dur(),
            final(self).very_low_power_dur() == old(self).very_low_power_dur(),
    {
        self.sleeper.set_t0_now_sub_if_unset(now, sub);
    }

    /// A light suspend for the rest of a normal cycle.
    pub fn short_sleep(&mut self, now: u64) -> (r: Suspend)
        ensures
            r == (Suspend::Light { usec: old(self).remaining_of(now, old(self).short_sleep_dur()) }),
            final(self).consumed_from(*old(self)),
    {
        self.sleeper.sleep_up_to(now, self.short_sleep_dur)
    }

    /// A power-off for the rest of a low-power cycle.
    pub fn enter_low_power(&mut self, now: u64) -> (r: Suspend)
        ensures
            r == (Suspend::PowerOff { usec: old(self).remaining_of(now, old(self).low_power_dur()) }),
            final(self).consumed_from(*old(self)),
    {
        self.sleeper.reset_then_sleep_up_to(now, self.low_power_dur)
    }

    /// A power-off for the rest of a very-low-power cycle.
    pub fn enter_very_low_power(&mut self, now: u64) -> (r: Suspend)
        ensures
            r == (Suspend::PowerOff {
                usec: old(self).remaining_of(now, old(self).very_low_power_dur()),
            }),
            final(self).consumed_from(*old(self)),
    {
        self.sleeper.reset_then_sleep_up_to(now, self.very_low_power_dur)
    }
}

} // verus!
