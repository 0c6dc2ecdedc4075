//! The executable button.

use vstd::prelude::*;
use crate::machine::{probe_for, step, Machine, Phase, Probe, TIMEOUT_MILLIS};
use crate::time::{
    longer_than, millis, millis_in_ticks, span_between, Duration, Instant, MAX_SPAN,
};

verus! {

/// A debounced button.
///
/// It holds no pin. On every poll the caller asks the pin the question that
/// [`Button::probe`] names and passes the answer, or the pin's error, to
/// [`Button::poll`] with the current time.
pub struct Button {
    debounce_time: Duration,
    debounce_max: Duration,
    debounce_state: Phase,
    state: bool,
    active_state: bool,
    last_state: bool,
    toggle_state: bool,
    last_on: Instant,
    last_off: Instant,
}

impl View for Button {
    type V = Machine;

    closed spec fn view(&self) -> Machine {
        Machine {
            active_level: self.active_state,
            debounce: self.debounce_time.ticks as nat,
            timeout: self.debounce_max.ticks as nat,
            phase: self.debounce_state,
            stable: self.state,
            previous: self.last_state,
            toggle: self.toggle_state,
            last_rise: self.last_on.ticks as nat,
            last_fall: self.last_off.ticks as nat,
        }
    }
}

impl Button {
    /// A button that is off and has seen nothing yet. `active_state` is the polarity:
    /// `true` where a high pin means pressed. `debounce_time` is how long a level must
    /// hold before it counts.
    ///
    /// Any `debounce_time` is taken. Presses are confirmed as intended where
    /// [`Machine::well_configured`] holds, that is for a positive `debounce_time`
    /// below the timeout of twenty milliseconds.
    pub fn new(active_state: bool, debounce_time: Duration) -> (button: Button)
        ensures
            button@ == Machine::initial(active_state, debounce_time.ticks as nat),
            button@.well_configured() <==> 0 < debounce_time.ticks < millis_in_ticks(
                TIMEOUT_MILLIS as nat,
            ),
    {
        let debounce_max = millis(TIMEOUT_MILLIS);
        let zero_instant = Instant { ticks: 0 };
        Button {
            debounce_time,
            debounce_max,
            debounce_state: Phase::Off,
            state: false,
            active_state,
            last_state: false,
            toggle_state: false,
            last_on: zero_instant,
            last_off: zero_instant,
        }
    }

    /// The question to ask the pin before the next poll.
    pub fn probe(&self) -> (probe: Probe)
        ensures
            probe == probe_for(self@.active_level),
    {
        if self.active_state {
            Probe::IsHigh
        } else {
            Probe::IsLow
        }
    }

    /// Whether `time` is a time at which the button can be polled: not before either
    /// recorded edge, and close enough to both for the spans to be measured.
    pub fn accepts(&self, time: Instant) -> (ok: bool)
        ensures
            ok == self@.accepts(time.ticks as nat),
    {
        let now: u64 = time.ticks;
        self.last_on.ticks <= now && now - self.last_on.ticks <= MAX_SPAN
            && self.last_off.ticks <= now && now - self.last_off.ticks <= MAX_SPAN
    }

    /// One poll at `time`. `reading` is what the pin answered to [`Button::probe`]:
    /// `Ok(true)` where the input is active, or the error of a failed read.
    ///
    /// A failed read changes nothing and is handed back. A reading moves the button by
    /// one [`step`] of the machine.
    pub fn poll<E>(&mut self, reading: Result<bool, E>, time: Instant) -> (outcome: Result<(), E>)
        requires
            reading is Ok ==> old(self)@.accepts(time.ticks as nat),
        ensures
            match reading {
                Ok(level) => outcome is Ok && final(self)@ == step(
                    old(self)@,
                    level,
                    time.ticks as nat,
                ),
                Err(error) => outcome == Err::<(), E>(error) && *final(self) == *old(self),
            },
            reading is Ok ==> final(self)@.previous == old(self)@.stable,
    {
        let current_state = match reading {
            Ok(level) => level,
            Err(error) => {
                return Err(error);
            },
        };
        let last_on_delta = span_between(time, self.last_on);
        let last_off_delta = span_between(time, self.last_off);
        self.last_state = self.state;

        match self.debounce_state {
            Phase::Off => {
                if current_state {
                    self.debounce_state = Phase::DebouncingOn;
                    self.last_on = time;
                }
            },
            Phase::DebouncingOff => {
                if !current_state && longer_than(last_off_delta, self.debounce_time) {
                    self.debounce_state = Phase::Off;
                    self.state = false;
                } else if current_state && longer_than(last_off_delta, self.debounce_max) {
                    self.debounce_state = Phase::On;
                }
            },
            Phase::DebouncingOn => {
                if current_state && longer_than(last_on_delta, self.debounce_time) {
                    self.debounce_state = Phase::On;
                    self.state = true;
                    self.toggle_state = !self.toggle_state;
                } else if !current_state && longer_than(last_on_delta, self.debounce_max) {
                    self.debounce_state = Phase::Off;
                }
            },
            Phase::On => {
                if !current_state {
                    self.debounce_state = Phase::DebouncingOff;
                    self.last_off = time;
                }
            },
        }
        Ok(())
    }

    /// The validated logical state.
    pub fn state(&self) -> (state: bool)
        ensures
            state == self@.stable,
    {
        self.state
    }

    /// The validated state as it was when the latest poll began.
    pub fn last_state(&self) -> (state: bool)
        ensures
            state == self@.previous,
    {
        self.last_state
    }

    /// The toggle bit: flipped once by every confirmed press.
    pub fn toggle_state(&self) -> (toggle: bool)
        ensures
            toggle == self@.toggle,
    {
        self.toggle_state
    }

    /// The phase of the machine.
    pub fn phase(&self) -> (phase: Phase)
        ensures
            phase == self@.phase,
    {
        self.debounce_state
    }
}

} // verus!
