//! What the machine does over whole runs of polls.
//!
//! Every law is stated over [`step`] and [`run`], the functions by which the
//! executable button is specified, and holds for every machine and every sequence of
//! samples that its `requires` admits.

use vstd::prelude::*;
use crate::machine::{run, step, Machine, Phase, Sample};
use crate::time::MAX_SPAN;

verus! {

/// Whether every sample of `samples` reads the level `level`.
pub open spec fn all_at_level(samples: Seq<Sample>, level: bool) -> bool {
    forall|i: int| 0 <= i < samples.len() ==> (#[trigger] samples[i]).level == level
}

/// A run can be cut at its last poll: the machine after the first `n + 1` samples is
/// one step from the machine after the first `n`.
pub proof fn lemma_run_take_next(m: Machine, samples: Seq<Sample>, n: int)
    requires
        0 <= n < samples.len(),
    ensures
        run(m, samples.take(n + 1)) == step(
            run(m, samples.take(n)),
            samples[n].level,
            samples[n].at,
        ),
{
    let longer = samples.take(n + 1);
    assert(longer.drop_last() =~= samples.take(n));
    assert(longer.last() == samples[n]);
}

/// The empty run leaves the machine as it is, and the run over all samples is the run
/// over the whole prefix.
pub proof fn lemma_run_take_ends(m: Machine, samples: Seq<Sample>)
    ensures
        run(m, samples.take(0)) == m,
        run(m, samples.take(samples.len() as int)) == run(m, samples),
{
    assert(samples.take(0).len() == 0);
    assert(samples.take(samples.len() as int) =~= samples);
}

/// A poll leaves the configuration alone, keeps the stable state in agreement with
/// the phase, and files the stable state of before as the previous one.
pub proof fn law_step_keeps_shape(m: Machine, level: bool, now: nat)
    ensures
        step(m, level, now).active_level == m.active_level,
        step(m, level, now).debounce == m.debounce,
        step(m, level, now).timeout == m.timeout,
        m.consistent() ==> step(m, level, now).consistent(),
        step(m, level, now).previous == m.stable,
{
}

/// A new machine is consistent, and so is every machine that polls can lead it to.
pub proof fn law_runs_stay_consistent(m: Machine, samples: Seq<Sample>)
    requires
        m.consistent(),
    ensures
        run(m, samples).consistent(),
        run(m, samples).active_level == m.active_level,
        run(m, samples).debounce == m.debounce,
        run(m, samples).timeout == m.timeout,
    decreases samples.len(),
{
    if samples.len() > 0 {
        law_runs_stay_consistent(m, samples.drop_last());
    }
}

/// A clock that does not run backwards and stays within [`MAX_SPAN`] is always
/// accepted: a machine that accepts `now` accepts, after the poll at `now`, every
/// later time up to `MAX_SPAN`.
pub proof fn law_monotonic_clock_is_accepted(m: Machine, level: bool, now: nat, next: nat)
    requires
        m.accepts(now),
        now <= next <= MAX_SPAN,
    ensures
        step(m, level, now).accepts(next),
{
}

/// Idle stability: while the level stays inactive, a machine that is off stays off,
/// with its stable state inactive and its toggle bit untouched, after every poll.
pub proof fn law_idle_stability(m: Machine, samples: Seq<Sample>, n: int)
    requires
        m.phase is Off,
        !m.stable,
        all_at_level(samples, false),
        0 <= n <= samples.len(),
    ensures
        run(m, samples.take(n)).phase is Off,
        !run(m, samples.take(n)).stable,
        run(m, samples.take(n)).toggle == m.toggle,
    decreases n,
{
    if n == 0 {
        lemma_run_take_ends(m, samples);
    } else {
        law_idle_stability(m, samples, n - 1);
        lemma_run_take_next(m, samples, n - 1);
    }
}

/// Whether the first `k` samples are a burst of active readings that all fall within
/// `window` ticks of the first of them.
pub open spec fn active_within(samples: Seq<Sample>, k: int, window: nat) -> bool {
    forall|i: int|
        0 <= i < k ==> (#[trigger] samples[i]).level && samples[i].at - samples[0].at <= window
}

/// Whether the first `k` samples are inactive readings that all fall within `window`
/// ticks of the first of them.
pub open spec fn inactive_within(samples: Seq<Sample>, k: int, window: nat) -> bool {
    forall|i: int|
        0 <= i < k ==> !(#[trigger] samples[i]).level && samples[i].at - samples[0].at <= window
}

/// Whether the samples from index `k` on all read the level `level`.
pub open spec fn level_from(samples: Seq<Sample>, k: int, level: bool) -> bool {
    forall|i: int| k <= i < samples.len() ==> (#[trigger] samples[i]).level == level
}

/// Bounce rejection: a machine that is off sees the level go active and return to
/// inactive before the debounce interval has passed. The first `k` samples are the
/// active ones, none later than the debounce interval after the first; all that follow
/// are inactive. Then after every poll the stable state is still inactive and the
/// toggle bit has not flipped; the press is either still pending, with the time of the
/// first sample as its time, or abandoned.
pub proof fn law_bounce_rejection(m: Machine, samples: Seq<Sample>, k: int, n: int)
    requires
        m.phase is Off,
        !m.stable,
        0 <= k <= samples.len(),
        active_within(samples, k, m.debounce),
        level_from(samples, k, false),
        0 <= n <= samples.len(),
    ensures
        !run(m, samples.take(n)).stable,
        run(m, samples.take(n)).toggle == m.toggle,
        run(m, samples.take(n)).phase is Off || (run(m, samples.take(n)).phase is DebouncingOn
            && run(m, samples.take(n)).last_rise == samples[0].at),
        1 <= n <= k ==> run(m, samples.take(n)).phase is DebouncingOn,
        k == 0 ==> run(m, samples.take(n)).phase is Off,
    decreases n,
{
    if n == 0 {
        lemma_run_take_ends(m, samples);
    } else {
        law_bounce_rejection(m, samples, k, n - 1);
        law_runs_stay_consistent(m, samples.take(n - 1));
        lemma_run_take_next(m, samples, n - 1);
        lemma_run_take_ends(m, samples);
    }
}

/// Confirmed press: a machine that is off sees the level go active and stay active.
/// Sample `k` is the first that is taken more than the debounce interval after the
/// first sample. Then the stable state is inactive and the toggle bit unflipped after
/// each of the polls before it, and from the poll of sample `k` on the machine is on,
/// the stable state is active and the toggle bit has flipped once.
pub proof fn law_confirmed_press(m: Machine, samples: Seq<Sample>, k: int, n: int)
    requires
        m.phase is Off,
        !m.stable,
        all_at_level(samples, true),
        0 <= k < samples.len(),
        active_within(samples, k, m.debounce),
        samples[k].at - samples[0].at > m.debounce,
        0 <= n <= samples.len(),
    ensures
        n <= k ==> !run(m, samples.take(n)).stable && run(m, samples.take(n)).toggle == m.toggle,
        1 <= n <= k ==> run(m, samples.take(n)).phase is DebouncingOn && run(
            m,
            samples.take(n),
        ).last_rise == samples[0].at,
        n > k ==> run(m, samples.take(n)).phase is On && run(m, samples.take(n)).stable && run(
            m,
            samples.take(n),
        ).toggle == !m.toggle,
    decreases n,
{
    if n == 0 {
        lemma_run_take_ends(m, samples);
    } else {
        law_confirmed_press(m, samples, k, n - 1);
        law_runs_stay_consistent(m, samples.take(n - 1));
        lemma_run_take_next(m, samples, n - 1);
        lemma_run_take_ends(m, samples);
    }
}

/// Timeout abandonment: a machine that is off sees a burst of active readings within
/// the debounce interval, the first `k` samples, and then inactive readings, of which
/// the first, sample `k`, is taken more than the timeout after the burst began. From
/// the poll of sample `k` on the machine is off again; the stable state never became
/// active and the toggle bit never flipped.
pub proof fn law_timeout_abandonment(m: Machine, samples: Seq<Sample>, k: int, n: int)
    requires
        m.phase is Off,
        !m.stable,
        1 <= k < samples.len(),
        active_within(samples, k, m.debounce),
        level_from(samples, k, false),
        samples[k].at - samples[0].at > m.timeout,
        0 <= n <= samples.len(),
    ensures
        !run(m, samples.take(n)).stable,
        run(m, samples.take(n)).toggle == m.toggle,
        n > k ==> run(m, samples.take(n)).phase is Off,
    decreases n,
{
    law_bounce_rejection(m, samples, k, n);
    if n > k {
        law_timeout_abandonment(m, samples, k, n - 1);
        law_bounce_rejection(m, samples, k, n - 1);
        law_runs_stay_consistent(m, samples.take(n - 1));
        lemma_run_take_next(m, samples, n - 1);
    }
}

/// Symmetric release: a machine that is on sees the level go inactive and stay
/// inactive. Sample `k` is the first that is taken more than the debounce interval
/// after the first sample. Then the stable state is active after each of the polls
/// before it, and from the poll of sample `k` on the machine is off and the stable
/// state inactive. The toggle bit does not flip at any poll.
pub proof fn law_confirmed_release(m: Machine, samples: Seq<Sample>, k: int, n: int)
    requires
        m.phase is On,
        m.stable,
        all_at_level(samples, false),
        0 <= k < samples.len(),
        inactive_within(samples, k, m.debounce),
        samples[k].at - samples[0].at > m.debounce,
        0 <= n <= samples.len(),
    ensures
        run(m, samples.take(n)).toggle == m.toggle,
        n <= k ==> run(m, samples.take(n)).stable,
        1 <= n <= k ==> run(m, samples.take(n)).phase is DebouncingOff && run(
            m,
            samples.take(n),
        ).last_fall == samples[0].at,
        n > k ==> run(m, samples.take(n)).phase is Off && !run(m, samples.take(n)).stable,
    decreases n,
{
    if n == 0 {
        lemma_run_take_ends(m, samples);
    } else {
        law_confirmed_release(m, samples, k, n - 1);
        law_runs_stay_consistent(m, samples.take(n - 1));
        lemma_run_take_next(m, samples, n - 1);
        lemma_run_take_ends(m, samples);
    }
}

/// Last-state snapshot: after every poll of a run, the previous state is the stable
/// state of the machine as it stood before that poll.
pub proof fn law_previous_is_one_poll_behind(m: Machine, samples: Seq<Sample>, n: int)
    requires
        0 <= n < samples.len(),
    ensures
        run(m, samples.take(n + 1)).previous == run(m, samples.take(n)).stable,
{
    lemma_run_take_next(m, samples, n);
}

} // verus!
