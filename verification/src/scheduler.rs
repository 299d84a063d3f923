//! The control loop: power modes and the deferred bring-up.
//!
//! Every cycle takes one measurement and then decides how the cycle ends:
//! with a power-off while the battery is low, with a restart where a handler
//! asked for one, with the bring-up of the network side after the first
//! cycle of a process, or with a short sleep. The loop itself runs in the
//! caller, which measures, carries out what `Scheduler` decides, and reports
//! back. Voltages are microvolts; instants and durations are microseconds.

use crate::signals::Msg;
use crate::sleeper::SleeperWithPresets;
use vstd::prelude::*;

verus! {

/// Above this voltage the battery has recovered.
pub const HI_V: i64 = 13_000_000;

/// At or below this voltage the battery is critically low.
pub const LO_V: i64 = 12_200_000;

/// Longest sleep of any kind.
pub const MAX_SLEEP_DUR: u64 = 60_000_000;

/// Period of a cycle while the battery is critically low.
pub const LO_V_SLEEP_DUR: u64 = 60_000_000;

/// Period of a cycle otherwise.
pub const RECORD_SLEEP_DUR: u64 = 10_000_000;

/// Shortest sleep of any kind.
pub const MIN_SLEEP_DUR: u64 = 5_000_000;

/// Time without a high reading or a keep-alive after which normal operation
/// ends.
pub const HI_POWER_MODE_DUR: u64 = 120_000_000;

/// Indicator state: dark.
pub const LED_OFF: usize = 0;

/// Indicator state: a measurement is under way.
pub const LED_MEASURING: usize = 1;

/// Indicator state: the network side is up and the device is idle.
pub const LED_ARMED: usize = 2;

/// How much power the device may draw.
#[derive(Clone, Copy, Debug, PartialEq, Eq, Structural)]
pub enum PowerMode {
    Normal,
    LowPower,
    VeryLowPower,
}

/// The power mode that a measurement calls for. `reading` is the smoothed
/// voltage, or `None` where the measurement failed; `woke_from_sleep` tells
/// whether this process began with a wake from a power-off.
pub open spec fn power_mode(reading: Option<i64>, woke_from_sleep: bool) -> PowerMode {
    match reading {
        None => PowerMode::VeryLowPower,
        Some(v) => if v <= LO_V {
            PowerMode::VeryLowPower
        } else if v <= HI_V && woke_from_sleep {
            PowerMode::LowPower
        } else {
            PowerMode::Normal
        },
    }
}

/// Classifies a measurement.
pub fn classify(reading: Option<i64>, woke_from_sleep: bool) -> (r: PowerMode)
    ensures
        r == power_mode(reading, woke_from_sleep),
{
    match reading {
        None => PowerMode::VeryLowPower,
        Some(v) => if v <= LO_V {
            PowerMode::VeryLowPower
        } else if v <= HI_V && woke_from_sleep {
            PowerMode::LowPower
        } else {
            PowerMode::Normal
        },
    }
}

/// The colour bytes of an indicator state.
pub open spec fn led_states(state: int) -> Seq<u8> {
    if state == LED_MEASURING {
        seq![0u8, 0x20u8, 0u8]
    } else if state == LED_ARMED {
        seq![0u8, 0u8, 0x20u8]
    } else {
        seq![0u8, 0u8, 0u8]
    }
}

/// The colour bytes to send to the indicator for `state`.
pub fn led_color(state: usize) -> (r: [u8; 3])
    requires
        state <= LED_ARMED,
    ensures
        r@ == led_states(state as int),
{
    let r: [u8; 3] = if state == LED_MEASURING {
        [0u8, 0x20u8, 0u8]
    } else if state == LED_ARMED {
        [0u8, 0u8, 0x20u8]
    } else {
        [0u8, 0u8, 0u8]
    };
    assert(r@ =~= led_states(state as int));
    r
}

/// The liveness timer after a measurement: a reading above `HI_V` sets it
/// to `now`.
pub open spec fn timer_after_reading(n: u64, reading: Option<i64>, now: u64) -> u64 {
    match reading {
        Some(v) => if v > HI_V {
            now
        } else {
            n
        },
        None => n,
    }
}

/// The liveness timer after the signals `msgs` have been handled at `now`.
/// Signals are handled oldest first and handling ends at a `Restart`, so a
/// keep-alive counts where it is the oldest signal.
pub open spec fn timer_after_msgs(n: u64, msgs: Seq<Msg>, now: u64) -> u64 {
    if msgs.len() > 0 && msgs[0] == Msg::KeepAlive {
        now
    } else {
        n
    }
}

/// Whether a restart is asked for among `msgs`.
pub open spec fn restart_asked(msgs: Seq<Msg>) -> bool {
    msgs.contains(Msg::Restart)
}

/// Whether the liveness timer, set at `n`, has run out at `now`.
pub open spec fn timer_expired(n: u64, now: u64) -> bool {
    now >= n && now - n >= HI_POWER_MODE_DUR
}

/// What the control loop holds once the network side is up.
#[derive(Clone, Copy, Debug, PartialEq, Eq, Structural)]
pub struct LaterVars {
    /// The liveness timer: when a high reading or a keep-alive came last.
    pub n: u64,
}

impl LaterVars {
    /// Handles the signals `msgs`, oldest first: a keep-alive sets the
    /// liveness timer to `now`; a restart ends the handling, and the answer
    /// is `true`.
    pub fn handle_msgs(&mut self, msgs: &Vec<Msg>, now: u64) -> (restart: bool)
        ensures
            restart == restart_asked(msgs@),
            final(self).n == timer_after_msgs(old(self).n, msgs@, now),
    {
        let mut i: usize = 0;
        while i < msgs.len()
            invariant
                i <= msgs.len(),
                forall|j: int| 0 <= j < i ==> msgs@[j] == Msg::KeepAlive,
                self.n == if i > 0 {
                    now
                } else {
                    old(self).n
                },
            decreases msgs.len() - i,
        {
            match msgs[i] {
                Msg::Restart => {
                    return true;
                },
                Msg::KeepAlive => {
                    self.reset_high_power_mode_timer(now);
                },
            }
            i = i + 1;
        }
        false
    }

    /// Sets the liveness timer to `now`.
    pub fn reset_high_power_mode_timer(&mut self, now: u64)
        ensures
            final(self).n == now,
    {
        self.n = now;
    }

    /// Whether the liveness timer has run out at `now`.
    pub fn should_end_high_power_mode(&self, now: u64) -> (r: bool)
        ensures
            r == timer_expired(self.n, now),
    {
        now.saturating_sub(self.n) >= HI_POWER_MODE_DUR
    }
}

/// The phase of the control loop within one process: `First` until the
/// network side has been brought up, `NotFirst` from then on.
#[derive(Clone, Copy, Debug, PartialEq, Eq, Structural)]
pub enum Iter {
    First,
    NotFirst(LaterVars),
}

impl Iter {
    /// The indicator state `state`, where the indicator is in use.
    pub open spec fn led(&self, state: usize) -> Option<usize> {
        match self {
            Iter::First => None,
            Iter::NotFirst(_) => Some(state),
        }
    }

    /// The phase after the network side has been brought up at `now`. A
    /// phase that is `NotFirst` already stays as it is.
    pub open spec fn brought_up(&self, now: u64) -> Iter {
        match self {
            Iter::First => Iter::NotFirst(LaterVars { n: now }),
            Iter::NotFirst(vars) => Iter::NotFirst(*vars),
        }
    }

    /// Whether the network side is still to be brought up.
    pub fn is_first(&self) -> (r: bool)
        ensures
            r == (*self is First),
    {
        match self {
            Iter::First => true,
            Iter::NotFirst(_) => false,
        }
    }

    /// `LED_OFF`, where the indicator is in use.
    pub fn if_notfirst_led_state_0(&self) -> (r: Option<usize>)
        ensures
            r == self.led(LED_OFF),
    {
        match self {
            Iter::First => None,
            Iter::NotFirst(_) => Some(LED_OFF),
        }
    }

    /// `LED_MEASURING`, where the indicator is in use.
    pub fn if_notfirst_led_state_1(&self) -> (r: Option<usize>)
        ensures
            r == self.led(LED_MEASURING),
    {
        match self {
            Iter::First => None,
            Iter::NotFirst(_) => Some(LED_MEASURING),
        }
    }

    /// `LED_ARMED`, where the indicator is in use.
    pub fn if_notfirst_led_state_2(&self) -> (r: Option<usize>)
        ensures
            r == self.led(LED_ARMED),
    {
        match self {
            Iter::First => None,
            Iter::NotFirst(_) => Some(LED_ARMED),
        }
    }

    /// Handles the signals `msgs` once the network side is up; before that
    /// nothing can have been sent and nothing is handled.
    pub fn if_notfirst_handle_msgs(&mut self, msgs: &Vec<Msg>, now: u64) -> (restart: bool)
        ensures
            match *old(self) {
                Iter::First => !restart && *final(self) == *old(self),
                Iter::NotFirst(vars) => restart == restart_asked(msgs@) && *final(self)
                    == Iter::NotFirst(LaterVars { n: timer_after_msgs(vars.n, msgs@, now) }),
            },
    {
        match self {
            Iter::First => false,
            Iter::NotFirst(vars) => {
                let mut v = *vars;
                let restart = v.handle_msgs(msgs, now);
                *self = Iter::NotFirst(v);
                restart
            },
        }
    }

    /// Sets the liveness timer to `now` once the network side is up.
    pub fn if_notfirst_reset_high_power_mode_timer(&mut self, now: u64)
        ensures
            *final(self) == match *old(self) {
                Iter::First => Iter::First,
                Iter::NotFirst(_) => Iter::NotFirst(LaterVars { n: now }),
            },
    {
        match self {
            Iter::First => {},
            Iter::NotFirst(_) => {
                *self = Iter::NotFirst(LaterVars { n: now });
            },
        }
    }

    /// Whether normal operation is to end: the network side is up and the
    /// liveness timer has run out.
    pub fn if_notfirst_if_continue_high_power_mode_or_else(&self, now: u64) -> (r: bool)
        ensures
            r == match *self {
                Iter::First => false,
                Iter::NotFirst(vars) => timer_expired(vars.n, now),
            },
    {
        match self {
            Iter::First => false,
            Iter::NotFirst(vars) => vars.should_end_high_power_mode(now),
        }
    }

    /// The phase once the network side has been brought up at `now`: the
    /// one transition from `First` to `NotFirst`. A second call changes
    /// nothing.
    pub fn if_notfirst_take_or_else(self, now: u64) -> (r: Iter)
        ensures
            r == self.brought_up(now),
            r is NotFirst,
    {
        match self {
            Iter::First => Iter::NotFirst(LaterVars { n: now }),
            Iter::NotFirst(vars) => Iter::NotFirst(vars),
        }
    }
}

/// How a cycle ends.
#[derive(Clone, Copy, Debug, PartialEq, Eq, Structural)]
pub enum CycleAction {
    /// Power off for `usec` microseconds; the device starts over on wake.
    PowerOff { usec: u64 },
    /// Restart the device at once.
    Restart,
    /// Bring up the network side, then report with `Scheduler::brought_up`.
    BringUp,
    /// Pause in place for `usec` microseconds, then run the next cycle.
    Sleep { usec: u64 },
}

/// What the caller is to do at the end of a cycle: show the indicator state
/// `led`, where there is one, then carry out `action`. `mode` is the power
/// mode that the cycle ended in.
#[derive(Clone, Copy, Debug, PartialEq, Eq, Structural)]
pub struct CycleEnd {
    pub mode: PowerMode,
    pub led: Option<usize>,
    pub action: CycleAction,
}

/// The phase after a cycle whose measurement gave `reading` and which found
/// the signals `msgs` waiting at `now`. The phase never goes back to
/// `First`; it leaves `First` only through `Iter::brought_up`.
pub open spec fn iter_after_cycle(
    iter: Iter,
    woke_from_sleep: bool,
    reading: Option<i64>,
    msgs: Seq<Msg>,
    now: u64,
) -> Iter {
    match iter {
        Iter::First => Iter::First,
        Iter::NotFirst(vars) => if power_mode(reading, woke_from_sleep) == PowerMode::Normal {
            Iter::NotFirst(
                LaterVars { n: timer_after_msgs(timer_after_reading(vars.n, reading, now), msgs, now) },
            )
        } else {
            Iter::NotFirst(vars)
        },
    }
}

/// How a cycle ends. A reading that calls for a lower power mode ends the
/// cycle with a power-off, whatever the phase. Otherwise the first cycle of
/// a process ends with the bring-up; a later one with a restart where one
/// was asked for, else with a power-off in low-power mode where the
/// liveness timer has run out, else with a short sleep.
pub open spec fn cycle_end(
    iter: Iter,
    woke_from_sleep: bool,
    sleeper: SleeperWithPresets,
    reading: Option<i64>,
    msgs: Seq<Msg>,
    now: u64,
) -> CycleEnd {
    match power_mode(reading, woke_from_sleep) {
        PowerMode::VeryLowPower => CycleEnd {
            mode: PowerMode::VeryLowPower,
            led: iter.led(LED_OFF),
            action: CycleAction::PowerOff {
                usec: sleeper.remaining_of(now, sleeper.very_low_power_dur()),
            },
        },
        PowerMode::LowPower => CycleEnd {
            mode: PowerMode::LowPower,
            led: iter.led(LED_OFF),
            action: CycleAction::PowerOff { usec: sleeper.remaining_of(now, sleeper.low_power_dur()) },
        },
        PowerMode::Normal => match iter_after_cycle(iter, woke_from_sleep, reading, msgs, now) {
            Iter::First => CycleEnd {
                mode: PowerMode::Normal,
                led: None,
                action: CycleAction::BringUp,
            },
            Iter::NotFirst(vars) => if restart_asked(msgs) {
                CycleEnd {
                    mode: PowerMode::Normal,
                    led: Some(LED_ARMED),
                    action: CycleAction::Restart,
                }
            } else if timer_expired(vars.n, now) {
                CycleEnd {
                    mode: PowerMode::LowPower,
                    led: Some(LED_ARMED),
                    action: CycleAction::PowerOff {
                        usec: sleeper.remaining_of(now, sleeper.low_power_dur()),
                    },
                }
            } else {
                CycleEnd {
                    mode: PowerMode::Normal,
                    led: Some(LED_ARMED),
                    action: CycleAction::Sleep {
                        usec: sleeper.remaining_of(now, sleeper.short_sleep_dur()),
                    },
                }
            },
        },
    }
}

/// The kind of end that a cycle takes.
#[derive(Clone, Copy, Debug, PartialEq, Eq, Structural)]
pub enum EndKind {
    PowerOff,
    Restart,
    BringUp,
    Sleep,
}

/// The kind of an action.
pub open spec fn kind_of(action: CycleAction) -> EndKind {
    match action {
        CycleAction::PowerOff { .. } => EndKind::PowerOff,
        CycleAction::Restart => EndKind::Restart,
        CycleAction::BringUp => EndKind::BringUp,
        CycleAction::Sleep { .. } => EndKind::Sleep,
    }
}

/// The kind of end that a cycle takes: it depends on the phase, the
/// measurement and the signals, and on no sleep period.
pub open spec fn cycle_end_kind(
    iter: Iter,
    woke_from_sleep: bool,
    reading: Option<i64>,
    msgs: Seq<Msg>,
    now: u64,
) -> EndKind {
    if power_mode(reading, woke_from_sleep) != PowerMode::Normal {
        EndKind::PowerOff
    } else {
        match iter_after_cycle(iter, woke_from_sleep, reading, msgs, now) {
            Iter::First => EndKind::BringUp,
            Iter::NotFirst(vars) => if restart_asked(msgs) {
                EndKind::Restart
            } else if timer_expired(vars.n, now) {
                EndKind::PowerOff
            } else {
                EndKind::Sleep
            },
        }
    }
}

/// What one cycle of a process meets: its measurement, the signals that
/// wait and the instant at which it ends, and the instant at which the
/// bring-up is done, should the cycle end with one.
pub struct Cycle {
    pub reading: Option<i64>,
    pub msgs: Seq<Msg>,
    pub now: u64,
    pub up_at: u64,
}

/// The phase in which the next cycle of the process begins; `None` where
/// the process ends with this cycle, in a power-off or a restart.
pub open spec fn next_iter(iter: Iter, woke_from_sleep: bool, c: Cycle) -> Option<Iter> {
    match cycle_end_kind(iter, woke_from_sleep, c.reading, c.msgs, c.now) {
        EndKind::PowerOff => None,
        EndKind::Restart => None,
        EndKind::BringUp => Some(iter.brought_up(c.up_at)),
        EndKind::Sleep => Some(iter_after_cycle(iter, woke_from_sleep, c.reading, c.msgs, c.now)),
    }
}

/// How often the network side is brought up while a process that begins in
/// the phase `iter` runs the cycles `cycles`, as far as it gets.
pub open spec fn bring_ups(iter: Iter, woke_from_sleep: bool, cycles: Seq<Cycle>) -> nat
    decreases cycles.len(),
{
    if cycles.len() == 0 {
        0
    } else {
        let c = cycles.first();
        let here: nat = if cycle_end_kind(iter, woke_from_sleep, c.reading, c.msgs, c.now)
            == EndKind::BringUp {
            1
        } else {
            0
        };
        match next_iter(iter, woke_from_sleep, c) {
            None => here,
            Some(next) => here + bring_ups(next, woke_from_sleep, cycles.drop_first()),
        }
    }
}

/// Whether a process that begins in the phase `iter` gets to run all of
/// `cycles`: none but the last ends the process.
pub open spec fn runs_all(iter: Iter, woke_from_sleep: bool, cycles: Seq<Cycle>) -> bool
    decreases cycles.len(),
{
    if cycles.len() <= 1 {
        true
    } else {
        match next_iter(iter, woke_from_sleep, cycles.first()) {
            None => false,
            Some(next) => runs_all(next, woke_from_sleep, cycles.drop_first()),
        }
    }
}

/// The end that `Scheduler::end_cycle` decides on is of the kind that
/// `cycle_end_kind` gives, whatever the sleep periods are.
pub proof fn lemma_cycle_end_kind(
    iter: Iter,
    woke_from_sleep: bool,
    sleeper: SleeperWithPresets,
    reading: Option<i64>,
    msgs: Seq<Msg>,
    now: u64,
)
    ensures
        kind_of(cycle_end(iter, woke_from_sleep, sleeper, reading, msgs, now).action)
            == cycle_end_kind(iter, woke_from_sleep, reading, msgs, now),
{
}

/// Law: once the network side is up it is never brought up again, and the
/// phase never goes back to `First`.
pub proof fn law_no_second_bring_up(iter: Iter, woke_from_sleep: bool, cycles: Seq<Cycle>)
    requires
        iter is NotFirst,
    ensures
        bring_ups(iter, woke_from_sleep, cycles) == 0,
        cycles.len() > 0 ==> match next_iter(iter, woke_from_sleep, cycles.first()) {
            Some(next) => next is NotFirst,
            None => true,
        },
    decreases cycles.len(),
{
    if cycles.len() > 0 {
        match next_iter(iter, woke_from_sleep, cycles.first()) {
            Some(next) => {
                law_no_second_bring_up(next, woke_from_sleep, cycles.drop_first());
            },
            None => {},
        }
    }
}

/// Law: a process brings the network side up at most once, at the end of
/// its first cycle and not before; it does so exactly once where it runs
/// two cycles or more, and where its first cycle ends in normal mode.
pub proof fn law_bring_up_once(woke_from_sleep: bool, cycles: Seq<Cycle>)
    ensures
        bring_ups(Iter::First, woke_from_sleep, cycles) <= 1,
        cycles.len() >= 2 && runs_all(Iter::First, woke_from_sleep, cycles) ==> bring_ups(
            Iter::First,
            woke_from_sleep,
            cycles,
        ) == 1,
        cycles.len() >= 1 && power_mode(cycles[0].reading, woke_from_sleep) == PowerMode::Normal
            ==> bring_ups(Iter::First, woke_from_sleep, cycles) == 1,
        cycles.len() >= 1 && power_mode(cycles[0].reading, woke_from_sleep) != PowerMode::Normal
            ==> bring_ups(Iter::First, woke_from_sleep, cycles) == 0,
{
    if cycles.len() > 0 {
        let c = cycles.first();
        match next_iter(Iter::First, woke_from_sleep, c) {
            Some(next) => {
                law_no_second_bring_up(next, woke_from_sleep, cycles.drop_first());
            },
            None => {},
        }
    }
}

/// The state of the control loop.
#[derive(Clone, Copy, Debug)]
pub struct Scheduler {
    iter: Iter,
    sleeper: SleeperWithPresets,
    woke_from_sleep: bool,
}

impl Scheduler {
    /// The phase of the loop.
    pub closed spec fn iter(&self) -> Iter {
        self.iter
    }

    /// The sleeper of the loop.
    pub closed spec fn sleeper(&self) -> SleeperWithPresets {
        self.sleeper
    }

    /// Whether this process began with a wake from a power-off.
    pub closed spec fn woke_from_sleep(&self) -> bool {
        self.woke_from_sleep
    }

    /// A loop in its first phase with the given sleeper.
    pub fn new(sleeper: SleeperWithPresets, woke_from_sleep: bool) -> (r: Self)
        ensures
            r.iter() is First,
            r.sleeper() == sleeper,
            r.woke_from_sleep() == woke_from_sleep,
    {
        Scheduler { iter: Iter::First, sleeper, woke_from_sleep }
    }

    /// The loop as it stands at boot: in its first phase, with the periods
    /// of this device, and with the first cycle counted from the start of
    /// the process, which was `uptime` before `now`.
    pub fn boot(woke_from_sleep: bool, now: u64, uptime: u64) -> (r: Self)
        requires
            uptime <= now,
        ensures
            r.iter() is First,
            r.woke_from_sleep() == woke_from_sleep,
            r.sleeper().sleeper().t0() == Some((now - uptime) as u64),
            r.sleeper().sleeper().min_sleep() == MIN_SLEEP_DUR,
            r.sleeper().sleeper().max_sleep() == MAX_SLEEP_DUR,
            r.sleeper().short_sleep_dur() == RECORD_SLEEP_DUR,
            r.sleeper().low_power_dur() == RECORD_SLEEP_DUR,
            r.sleeper().very_low_power_dur() == LO_V_SLEEP_DUR,
    {
        let mut sleeper = SleeperWithPresets::new(
            MIN_SLEEP_DUR,
            MAX_SLEEP_DUR,
            RECORD_SLEEP_DUR,
            RECORD_SLEEP_DUR,
            LO_V_SLEEP_DUR,
        );
        sleeper.set_t0_now_sub_if_unset(now, uptime);
        Scheduler { iter: Iter::First, sleeper, woke_from_sleep }
    }

    /// Whether the network side is still to be brought up.
    pub fn is_first(&self) -> (r: bool)
        ensures
            r == (self.iter() is First),
    {
        self.iter.is_first()
    }

    /// Begins a cycle at `now`: the cycle counts from `now` unless its
    /// beginning is on record already. The answer is the indicator state to
    /// show during the measurement, where the indicator is in use.
    pub fn begin_cycle(&mut self, now: u64) -> (led: Option<usize>)
        ensures
            led == old(self).iter().led(LED_MEASURING),
            final(self).iter() == old(self).iter(),
            final(self).woke_from_sleep() == old(self).woke_from_sleep(),
            final(self).sleeper().sleeper().t0() == match old(self).sleeper().sleeper().t0() {
                Some(t) => Some(t),
                None => Some(now),
            },
            final(self).sleeper().sleeper().min_sleep() == old(self).sleeper().sleeper().min_sleep(),
            final(self).sleeper().sleeper().max_sleep() == old(self).sleeper().sleeper().max_sleep(),
            final(self).sleeper().short_sleep_dur() == old(self).sleeper().short_sleep_dur(),
            final(self).sleeper().low_power_dur() == old(self).sleeper().low_power_dur(),
            final(self).sleeper().very_low_power_dur() == old(self).sleeper().very_low_power_dur(),
    {
        self.sleeper.set_t0_now_sub_if_unset(now, 0);
        self.iter.if_notfirst_led_state_1()
    }

    /// Ends a cycle at `now`. `reading` is the smoothed voltage of the
    /// cycle's measurement, or `None` where the measurement failed; `msgs`
    /// are the signals that waited, oldest first. The answer says how the
    /// cycle ends. The beginning of the cycle is forgotten where the cycle
    /// ends in a sleep or a power-off.
    pub fn end_cycle(&mut self, reading: Option<i64>, msgs: &Vec<Msg>, now: u64) -> (r: CycleEnd)
        ensures
            r == cycle_end(
                old(self).iter(),
                old(self).woke_from_sleep(),
                old(self).sleeper(),
                reading,
                msgs@,
                now,
            ),
            final(self).iter() == iter_after_cycle(
                old(self).iter(),
                old(self).woke_from_sleep(),
                reading,
                msgs@,
                now,
            ),
            final(self).woke_from_sleep() == old(self).woke_from_sleep(),
            kind_of(r.action) == cycle_end_kind(
                old(self).iter(),
                old(self).woke_from_sleep(),
                reading,
                msgs@,
                now,
            ),
            match r.action {
                CycleAction::PowerOff { .. } | CycleAction::Sleep { .. } => {
                    final(self).sleeper().consumed_from(old(self).sleeper())
                },
                CycleAction::Restart | CycleAction::BringUp => {
                    final(self).sleeper() == old(self).sleeper()
                },
            },
    {
        proof {
            lemma_cycle_end_kind(self.iter, self.woke_from_sleep, self.sleeper, reading, msgs@, now);
        }
        match classify(reading, self.woke_from_sleep) {
            PowerMode::VeryLowPower => {
                let led = self.iter.if_notfirst_led_state_0();
                let usec = self.sleeper.enter_very_low_power(now).usec();
                CycleEnd {
                    mode: PowerMode::VeryLowPower,
                    led,
                    action: CycleAction::PowerOff { usec },
                }
            },
            PowerMode::LowPower => {
                let led = self.iter.if_notfirst_led_state_0();
                let usec = self.sleeper.enter_low_power(now).usec();
                CycleEnd { mode: PowerMode::LowPower, led, action: CycleAction::PowerOff { usec } }
            },
            PowerMode::Normal => {
                match reading {
                    Some(v) => {
                        if v > HI_V {
                            self.iter.if_notfirst_reset_high_power_mode_timer(now);
                        }
                    },
                    None => {},
                }
                let led = self.iter.if_notfirst_led_state_2();
                if self.iter.if_notfirst_handle_msgs(msgs, now) {
                    CycleEnd { mode: PowerMode::Normal, led, action: CycleAction::Restart }
                } else if self.iter.if_notfirst_if_continue_high_power_mode_or_else(now) {
                    let usec = self.sleeper.enter_low_power(now).usec();
                    CycleEnd {
                        mode: PowerMode::LowPower,
                        led,
                        action: CycleAction::PowerOff { usec },
                    }
                } else if self.iter.is_first() {
                    CycleEnd { mode: PowerMode::Normal, led, action: CycleAction::BringUp }
                } else {
                    let usec = self.sleeper.short_sleep(now).usec();
                    CycleEnd { mode: PowerMode::Normal, led, action: CycleAction::Sleep { usec } }
                }
            },
        }
    }

    /// Reports at `now` that the network side has been brought up. The
    /// phase becomes `NotFirst` with its liveness timer set to `now`, unless
    /// it is `NotFirst` already; the cycle ends with the indicator armed and
    /// a short sleep.
    pub fn brought_up(&mut self, now: u64) -> (r: CycleEnd)
        ensures
            r == (CycleEnd {
                mode: PowerMode::Normal,
                led: Some(LED_ARMED),
                action: CycleAction::Sleep {
                    usec: old(self).sleeper().remaining_of(
                        now,
                        old(self).sleeper().short_sleep_dur(),
                    ),
                },
            }),
            final(self).iter() == old(self).iter().brought_up(now),
            final(self).iter() is NotFirst,
            final(self).woke_from_sleep() == old(self).woke_from_sleep(),
            final(self).sleeper().consumed_from(old(self).sleeper()),
    {
        self.iter = self.iter.if_notfirst_take_or_else(now);
        let usec = self.sleeper.short_sleep(now).usec();
        CycleEnd {
            mode: PowerMode::Normal,
            led: Some(LED_ARMED),
            action: CycleAction::Sleep { usec },
        }
    }
}

} // verus!
