//! The pacing of the input thread: how long to wait for terminal input, and
//! when a tick is due. The thread itself reads the terminal and the time; it
//! asks this clock what to do with what it found.

use vstd::prelude::*;
use crate::event::{Event, RawInput};

verus! {

/// The time between two ticks, in nanoseconds (about one fifteenth of a second).
pub const TICK_PERIOD_NANOS: u64 = 66_666_666;

/// What the input thread does next.
#[derive(Debug, Clone, Copy, PartialEq, Eq, Structural)]
pub enum Wait {
    /// Wait for terminal input for at most this many nanoseconds.
    Poll(u64),
    /// Input reading is paused: sleep this many nanoseconds, leaving the terminal alone.
    Sleep(u64),
}

/// The nanoseconds from `last` to `now`; none when `now` is not later.
pub open spec fn spec_elapsed(last: u64, now: u64) -> int {
    if now >= last {
        now - last
    } else {
        0
    }
}

/// One iteration of the input thread with reading enabled: from the time of
/// the last tick or input, the period, the time now, and whether input
/// arrived, the new time of the last tick or input and whether a tick is sent.
pub open spec fn spec_step(last: u64, period: u64, now: u64, input: bool) -> (u64, bool) {
    if input {
        (later(last, now), false)
    } else if spec_elapsed(last, now) >= period {
        (later(last, now), true)
    } else {
        (last, false)
    }
}

/// The later of two times: the window never starts before it started last.
pub open spec fn later(a: u64, b: u64) -> u64 {
    if b > a {
        b
    } else {
        a
    }
}

/// The time of the last tick or input after the first `k` iterations of a run
/// that started at `last0`; each observation is a time and whether input came.
pub open spec fn last_after(last0: u64, period: u64, obs: Seq<(u64, bool)>, k: nat) -> u64
    decreases k,
{
    if k == 0 || k > obs.len() {
        last0
    } else {
        spec_step(last_after(last0, period, obs, (k - 1) as nat), period, obs[k - 1].0, obs[k - 1].1).0
    }
}

/// Whether iteration `j` of the run sends a tick.
pub open spec fn ticks_at(last0: u64, period: u64, obs: Seq<(u64, bool)>, j: nat) -> bool {
    spec_step(last_after(last0, period, obs, j), period, obs[j as int].0, obs[j as int].1).1
}

/// Whether iteration `i` of the run sends an event: forwarded input or a tick.
pub open spec fn sends_at(last0: u64, period: u64, obs: Seq<(u64, bool)>, i: nat) -> bool {
    obs[i as int].1 || ticks_at(last0, period, obs, i)
}

/// The clock of the input thread.
pub struct TickClock {
    period: u64,
    last_tick: u64,
}

impl TickClock {
    pub closed spec fn spec_period(self) -> u64 {
        self.period
    }

    /// The time of the last tick or forwarded input.
    pub closed spec fn spec_last_tick(self) -> u64 {
        self.last_tick
    }

    /// A clock with the given period whose window starts at `now`.
    pub fn new(period: u64, now: u64) -> (r: TickClock)
        ensures
            r.spec_period() == period,
            r.spec_last_tick() == now,
    {
        TickClock { period, last_tick: now }
    }

    pub fn period(&self) -> (r: u64)
        ensures
            r == self.spec_period(),
    {
        self.period
    }

    pub fn last_tick(&self) -> (r: u64)
        ensures
            r == self.spec_last_tick(),
    {
        self.last_tick
    }

    /// What to do next at time `now`: with reading enabled, poll for the rest
    /// of the current window; with reading paused, sleep two periods.
    pub fn wait(&self, now: u64, reading: bool) -> (r: Wait)
        ensures
            reading ==> r == Wait::Poll(
                (if spec_elapsed(self.spec_last_tick(), now) >= self.spec_period() {
                    0
                } else {
                    self.spec_period() - spec_elapsed(self.spec_last_tick(), now)
                }) as u64,
            ),
            !reading ==> r == Wait::Sleep(
                (if 2 * self.spec_period() > u64::MAX {
                    u64::MAX as int
                } else {
                    2 * self.spec_period()
                }) as u64,
            ),
    {
        if reading {
            let elapsed = now.saturating_sub(self.last_tick);
            Wait::Poll(self.period.saturating_sub(elapsed))
        } else {
            if self.period > u64::MAX / 2 {
                Wait::Sleep(u64::MAX)
            } else {
                Wait::Sleep(2 * self.period)
            }
        }
    }

    /// Input arrived at `now`: the window starts again (never before it
    /// started last), and the event to send
    /// is `Exit` for the interrupt chord and the input itself otherwise.
    pub fn on_input(&mut self, now: u64, input: RawInput) -> (r: Event)
        ensures
            final(self).spec_period() == old(self).spec_period(),
            final(self).spec_last_tick() == spec_step(old(self).spec_last_tick(), old(self).spec_period(), now, true).0,
            match input.key {
                Some(k) if k.spec_is_interrupt() => r == Event::Exit,
                _ => r == Event::Input(input),
            },
    {
        if now > self.last_tick {
            self.last_tick = now;
        }
        match input.key {
            Some(k) => {
                if k.is_interrupt() {
                    Event::Exit
                } else {
                    Event::Input(input)
                }
            },
            None => Event::Input(input),
        }
    }

    /// The poll at `now` ended with no input: a tick is sent, and the window
    /// starts again, when a whole period has passed since the last tick or input.
    pub fn on_timeout(&mut self, now: u64) -> (r: Option<Event>)
        ensures
            final(self).spec_period() == old(self).spec_period(),
            final(self).spec_last_tick() == spec_step(old(self).spec_last_tick(), old(self).spec_period(), now, false).0,
            spec_step(old(self).spec_last_tick(), old(self).spec_period(), now, false).1 ==> r == Some(Event::Tick),
            !spec_step(old(self).spec_last_tick(), old(self).spec_period(), now, false).1 ==> r == None::<Event>,
    {
        if now.saturating_sub(self.last_tick) >= self.period {
            if now > self.last_tick {
                self.last_tick = now;
            }
            Some(Event::Tick)
        } else {
            None
        }
    }
}

proof fn lemma_last_after_grows(last0: u64, period: u64, obs: Seq<(u64, bool)>, k: nat)
    requires
        k < obs.len(),
    ensures
        last_after(last0, period, obs, k) <= last_after(last0, period, obs, k + 1),
{
}

proof fn lemma_last_after_bound(last0: u64, period: u64, obs: Seq<(u64, bool)>, i: nat, k: nat)
    requires
        i < k <= obs.len(),
        sends_at(last0, period, obs, i),
    ensures
        last_after(last0, period, obs, k) >= obs[i as int].0,
    decreases k,
{
    if k > i + 1 {
        lemma_last_after_bound(last0, period, obs, i, (k - 1) as nat);
        lemma_last_after_grows(last0, period, obs, (k - 1) as nat);
    }
}

proof fn lemma_last_after_start(last0: u64, period: u64, obs: Seq<(u64, bool)>, k: nat)
    requires
        k <= obs.len(),
    ensures
        last_after(last0, period, obs, k) >= last0,
    decreases k,
{
    if k > 0 {
        lemma_last_after_start(last0, period, obs, (k - 1) as nat);
        lemma_last_after_grows(last0, period, obs, (k - 1) as nat);
    }
}

/// Ticks are paced: with a positive period, a tick is sent only when a whole
/// period has passed since every earlier tick and every earlier forwarded
/// input, whatever times the clock reads. So no two ticks come closer than
/// the period, and input that keeps coming faster than the period keeps
/// ticks away.
pub proof fn lemma_tick_spacing(last0: u64, period: u64, obs: Seq<(u64, bool)>, i: nat, j: nat)
    requires
        period > 0,
        i < j < obs.len(),
        sends_at(last0, period, obs, i),
        ticks_at(last0, period, obs, j),
    ensures
        obs[j as int].0 - obs[i as int].0 >= period,
        !obs[j as int].1,
{
    lemma_last_after_bound(last0, period, obs, i, j);
}

/// With a positive period, the first tick of a run comes a whole period
/// after the run starts, and so does every later one.
pub proof fn lemma_first_tick(last0: u64, period: u64, obs: Seq<(u64, bool)>, j: nat)
    requires
        period > 0,
        j < obs.len(),
        ticks_at(last0, period, obs, j),
    ensures
        obs[j as int].0 - last0 >= period,
{
    lemma_last_after_start(last0, period, obs, j);
}

/// Input that comes faster than the period keeps ticks away: between two
/// inputs less than a period apart, no poll read at a time between them
/// sends a tick.
pub proof fn lemma_fast_input_no_tick(last0: u64, period: u64, obs: Seq<(u64, bool)>, i: nat, j: nat, k: nat)
    requires
        period > 0,
        i < j < k < obs.len(),
        obs[i as int].1,
        obs[k as int].1,
        obs[k as int].0 - obs[i as int].0 < period,
        obs[j as int].0 <= obs[k as int].0,
    ensures
        !ticks_at(last0, period, obs, j),
{
    if ticks_at(last0, period, obs, j) {
        lemma_tick_spacing(last0, period, obs, i, j);
    }
}

} // verus!
