//! Debouncing of a single polled digital input.
//!
//! A mechanical contact bounces: for a short while after it opens or closes, the level
//! read from it flickers. [`Button`] filters those flickers out. It is fed one reading
//! of the input together with the current time on every poll, and keeps a stable
//! logical state, the stable state as of the previous poll, and a toggle bit that
//! flips once per confirmed press.
//!
//! The crate touches no hardware. The caller reads the pin, with the question that
//! [`Button::probe`] names, and hands the answer to [`Button::poll`].
//!
//! * [`time`] holds instants and durations in microsecond ticks and the clock arithmetic.
//! * [`machine`] is the mathematical model: the four-phase machine and its step function.
//! * [`button`] is the executable button, specified by the model.
//! * [`laws`] proves what the model does over whole runs of polls.

pub mod button;
pub mod laws;
pub mod machine;
pub mod time;

pub use button::Button;
pub use machine::{Machine, Phase, Probe, Sample};
pub use time::{Duration, Instant};
