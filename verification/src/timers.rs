//! One-shot timers, held as plain values and ticked by `bevy::time::Timer`.
use vstd::prelude::*;
use core::time::Duration;
use bevy::time::Timer;
use bevy::time::TimerMode;

verus! {

/// What a one-shot timer is: its duration and elapsed time in nanoseconds,
/// whether it has finished, and whether it finished during the last tick.
pub struct OnceTimerView {
    pub duration: nat,
    pub elapsed: nat,
    pub finished: bool,
    pub just_finished: bool,
}

impl OnceTimerView {
    /// A timer of positive duration whose elapsed time never passes its
    /// duration, and which is finished exactly when the two are equal.
    pub open spec fn wf(self) -> bool {
        &&& 0 < self.duration
        &&& self.elapsed <= self.duration
        &&& self.finished <==> self.elapsed == self.duration
        &&& self.just_finished ==> self.finished
    }

    /// The timer after a tick of `delta` nanoseconds: a finished timer stays
    /// where it is; otherwise the elapsed time grows, stopping at the duration.
    pub open spec fn ticked(self, delta: nat) -> OnceTimerView {
        if self.finished {
            OnceTimerView { just_finished: false, ..self }
        } else if self.elapsed + delta >= self.duration {
            OnceTimerView { elapsed: self.duration, finished: true, just_finished: true, ..self }
        } else {
            OnceTimerView { elapsed: self.elapsed + delta, finished: false, just_finished: false, ..self }
        }
    }

    /// The timer restarted: nothing elapsed, not finished.
    pub open spec fn restarted(self) -> OnceTimerView {
        OnceTimerView { elapsed: 0, finished: false, just_finished: false, ..self }
    }

    /// A fresh timer of the given duration.
    pub open spec fn fresh(duration: nat) -> OnceTimerView {
        OnceTimerView { duration, elapsed: 0, finished: false, just_finished: false }
    }
}

/// The nanoseconds of a run of ticks, added up.
pub open spec fn total_time(deltas: Seq<nat>) -> nat
    decreases deltas.len(),
{
    if deltas.len() == 0 {
        0
    } else {
        total_time(deltas.drop_last()) + deltas.last()
    }
}

/// The timer after a run of ticks, one after another.
pub open spec fn ticked_by(t: OnceTimerView, deltas: Seq<nat>) -> OnceTimerView
    decreases deltas.len(),
{
    if deltas.len() == 0 {
        t
    } else {
        ticked_by(t, deltas.drop_last()).ticked(deltas.last())
    }
}

/// An unfinished timer finishes exactly when the ticks it is given add up to
/// what remains of its duration; until then its elapsed time is what it had
/// plus those ticks, and afterwards its duration.
pub proof fn lemma_finishes_when_time_adds_up(t: OnceTimerView, deltas: Seq<nat>)
    requires
        t.wf(),
        !t.finished,
    ensures
        ticked_by(t, deltas).wf(),
        ticked_by(t, deltas).duration == t.duration,
        ticked_by(t, deltas).finished <==> t.elapsed + total_time(deltas) >= t.duration,
        !ticked_by(t, deltas).finished ==> ticked_by(t, deltas).elapsed == t.elapsed + total_time(deltas),
    decreases deltas.len(),
{
    if deltas.len() > 0 {
        lemma_finishes_when_time_adds_up(t, deltas.drop_last());
    }
}

/// What a tick of `delta` nanoseconds gives a `TimerMode::Once` timer of the
/// given duration and elapsed time: the new elapsed time, whether it is
/// finished, and whether it finished during this tick.
pub open spec fn once_tick_result(duration: u64, elapsed: u64, delta: u64) -> (u64, bool, bool) {
    if elapsed == duration {
        (duration, true, false)
    } else if elapsed + delta >= duration {
        (duration, true, true)
    } else {
        ((elapsed + delta) as u64, false, false)
    }
}

/// Ticks a `bevy::time::Timer` in `TimerMode::Once`.
///
/// The timer is rebuilt with `Timer::new` and `Timer::set_elapsed`; a tick of
/// zero then sets its finished flag when the elapsed time has reached the
/// duration, as it was before. `Timer::tick` then advances it by `delta`, and
/// `Timer::elapsed`, `Timer::is_finished` and `Timer::just_finished` are read
/// back. The contract claims what `Timer::tick` does there: an unfinished timer
/// adds `delta` (saturating) and finishes, clamped at its duration, when that
/// reaches the duration; a finished one only clears its just-finished flag.
#[verifier::external_body]
fn bevy_once_tick(duration: u64, elapsed: u64, delta: u64) -> (r: (u64, bool, bool))
    requires
        0 < duration,
        elapsed <= duration,
    ensures
        r == once_tick_result(duration, elapsed, delta),
{
    let mut timer = Timer::new(Duration::from_nanos(duration), TimerMode::Once);
    timer.set_elapsed(Duration::from_nanos(elapsed));
    timer.tick(Duration::ZERO);
    timer.tick(Duration::from_nanos(delta));
    (timer.elapsed().as_nanos() as u64, timer.is_finished(), timer.just_finished())
}

/// A one-shot timer: bevy's `Timer` in `TimerMode::Once`, held as plain values.
/// Every timer is well formed (see `OnceTimerView::wf`).
pub struct OnceTimer {
    duration: u64,
    elapsed: u64,
    finished: bool,
    just_finished: bool,
}

impl View for OnceTimer {
    type V = OnceTimerView;

    closed spec fn view(&self) -> OnceTimerView {
        OnceTimerView {
            duration: self.duration as nat,
            elapsed: self.elapsed as nat,
            finished: self.finished,
            just_finished: self.just_finished,
        }
    }
}

impl OnceTimer {
    /// Every timer is well formed.
    #[verifier::type_invariant]
    spec fn well_formed(self) -> bool {
        self@.wf()
    }

    /// A fresh timer that finishes after `duration` nanoseconds.
    pub fn new(duration: u64) -> (t: OnceTimer)
        requires
            0 < duration,
        ensures
            t@ == OnceTimerView::fresh(duration as nat),
            t@.wf(),
    {
        OnceTimer { duration, elapsed: 0, finished: false, just_finished: false }
    }

    /// The duration, in nanoseconds.
    pub fn duration(&self) -> (d: u64)
        ensures
            d == self@.duration,
    {
        self.duration
    }

    /// The elapsed time, in nanoseconds.
    pub fn elapsed(&self) -> (e: u64)
        ensures
            e == self@.elapsed,
    {
        self.elapsed
    }

    /// Whether the timer has finished.
    pub fn is_finished(&self) -> (b: bool)
        ensures
            b == self@.finished,
    {
        self.finished
    }

    /// Whether the timer finished during the last tick.
    pub fn just_finished(&self) -> (b: bool)
        ensures
            b == self@.just_finished,
    {
        self.just_finished
    }

    /// Advances the timer by `delta` nanoseconds.
    pub fn tick(&mut self, delta: u64)
        ensures
            final(self)@ == old(self)@.ticked(delta as nat),
            final(self)@.wf(),
    {
        proof {
            use_type_invariant(&*self);
        }
        let (elapsed, finished, just_finished) = bevy_once_tick(self.duration, self.elapsed, delta);
        *self = OnceTimer { duration: self.duration, elapsed, finished, just_finished };
    }

    /// Restarts the timer, as `Timer::reset` does: nothing elapsed, not finished.
    pub fn reset(&mut self)
        ensures
            final(self)@ == old(self)@.restarted(),
            final(self)@.wf(),
    {
        proof {
            use_type_invariant(&*self);
        }
        *self = OnceTimer { duration: self.duration, elapsed: 0, finished: false, just_finished: false };
    }
}

} // verus!
