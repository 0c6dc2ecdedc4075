//! The debounce machine as a mathematical model.
//!
//! A [`Machine`] is the whole state of a button with times as natural numbers of
//! ticks. [`step`] is one poll: it takes the machine, the level that was read (`true`
//! for active) and the time of the poll, and gives the machine after the poll.
//! [`run`] is a sequence of polls. Nothing here is executable; the executable button
//! is specified by these functions.

use vstd::prelude::*;
use crate::time::{measurable, millis_in_ticks};

verus! {

/// The abandonment timeout in milliseconds. It is fixed, not configured.
pub const TIMEOUT_MILLIS: u64 = 20;

/// Where the machine stands between the two stable states.
#[derive(Clone, Copy, Debug, PartialEq, Eq)]
pub enum Phase {
    /// Stable and inactive.
    Off,
    /// A release was seen and awaits confirmation.
    DebouncingOff,
    /// A press was seen and awaits confirmation.
    DebouncingOn,
    /// Stable and active.
    On,
}

/// The question to put to the input pin on a poll.
#[derive(Clone, Copy, Debug, PartialEq, Eq)]
pub enum Probe {
    /// Ask whether the pin is high.
    IsHigh,
    /// Ask whether the pin is low.
    IsLow,
}

/// The question whose answer is "the input is active": whether the pin is high for an
/// active-high input, whether it is low for an active-low one.
pub open spec fn probe_for(active_level: bool) -> Probe {
    if active_level {
        Probe::IsHigh
    } else {
        Probe::IsLow
    }
}

/// The state of a debounced button.
pub struct Machine {
    /// The polarity: `true` where a high pin means active.
    pub active_level: bool,
    /// How long a level must hold before it is trusted, in ticks.
    pub debounce: nat,
    /// How long an unconfirmed edge may stay pending before it is abandoned, in ticks.
    pub timeout: nat,
    pub phase: Phase,
    /// The validated logical state.
    pub stable: bool,
    /// The validated state as it was when the latest poll began.
    pub previous: bool,
    /// Flips on every confirmed press.
    pub toggle: bool,
    /// When the latest provisional press was seen.
    pub last_rise: nat,
    /// When the latest provisional release was seen.
    pub last_fall: nat,
}

/// One reading of the input: the level, `true` for active, and the time it was taken.
pub struct Sample {
    pub level: bool,
    pub at: nat,
}

impl Machine {
    /// The machine of a new button: off, nothing seen yet, both edge times at zero,
    /// and the timeout at its fixed value.
    pub open spec fn initial(active_level: bool, debounce: nat) -> Machine {
        Machine {
            active_level,
            debounce,
            timeout: millis_in_ticks(TIMEOUT_MILLIS as nat),
            phase: Phase::Off,
            stable: false,
            previous: false,
            toggle: false,
            last_rise: 0,
            last_fall: 0,
        }
    }

    /// The stable state agrees with the phase: it is active exactly while the machine
    /// is on or is debouncing a release.
    pub open spec fn consistent(self) -> bool {
        self.stable <==> (self.phase is On || self.phase is DebouncingOff)
    }

    /// The configuration under which a held level is confirmed before it can time
    /// out: a positive debounce interval below the timeout.
    pub open spec fn well_configured(self) -> bool {
        0 < self.debounce < self.timeout
    }

    /// Whether a poll at `now` can measure the time since both recorded edges.
    pub open spec fn accepts(self, now: nat) -> bool {
        measurable(now, self.last_rise) && measurable(now, self.last_fall)
    }

    /// Ticks from the latest provisional press to `now`.
    pub open spec fn since_rise(self, now: nat) -> int {
        now - self.last_rise
    }

    /// Ticks from the latest provisional release to `now`.
    pub open spec fn since_fall(self, now: nat) -> int {
        now - self.last_fall
    }
}

/// One poll that reads `level` at time `now`.
///
/// The poll first files the stable state as the previous one. Then, by phase:
/// * off: an active level starts debouncing a press and records `now` as its time;
/// * debouncing a press: an active level held for more than the debounce interval
///   confirms it (stable state active, toggle flipped); an inactive level more than
///   the timeout after the press abandons it;
/// * on: an inactive level starts debouncing a release and records `now` as its time;
/// * debouncing a release: an inactive level held for more than the debounce interval
///   confirms it (stable state inactive); an active level more than the timeout after
///   the release abandons it.
/// In every other case only the previous state changes.
pub open spec fn step(m: Machine, level: bool, now: nat) -> Machine {
    let m = Machine { previous: m.stable, ..m };
    match m.phase {
        Phase::Off => if level {
            Machine { phase: Phase::DebouncingOn, last_rise: now, ..m }
        } else {
            m
        },
        Phase::DebouncingOn => if level && m.since_rise(now) > m.debounce {
            Machine { phase: Phase::On, stable: true, toggle: !m.toggle, ..m }
        } else if !level && m.since_rise(now) > m.timeout {
            Machine { phase: Phase::Off, ..m }
        } else {
            m
        },
        Phase::On => if !level {
            Machine { phase: Phase::DebouncingOff, last_fall: now, ..m }
        } else {
            m
        },
        Phase::DebouncingOff => if !level && m.since_fall(now) > m.debounce {
            Machine { phase: Phase::Off, stable: false, ..m }
        } else if level && m.since_fall(now) > m.timeout {
            Machine { phase: Phase::On, ..m }
        } else {
            m
        },
    }
}

/// The machine after the polls of `samples`, first to last.
pub open spec fn run(m: Machine, samples: Seq<Sample>) -> Machine
    decreases samples.len(),
{
    if samples.len() == 0 {
        m
    } else {
        step(run(m, samples.drop_last()), samples.last().level, samples.last().at)
    }
}

} // verus!
