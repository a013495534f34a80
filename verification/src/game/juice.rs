//! The timing of visual effects: how long a hit flash and a death particle last.
use vstd::prelude::*;
use crate::timers::{OnceTimer, OnceTimerView};

verus! {

/// How long a hit flash lasts: 0.08 s as an `f32` number of seconds reads, in
/// nanoseconds.
pub const HIT_FLASH_DURATION: u64 = 79_999_998;

/// How long a death particle lives: 0.4 s as an `f32` number of seconds reads,
/// in nanoseconds.
pub const PARTICLE_LIFETIME: u64 = 400_000_006;

/// The timer of a fresh hit flash, lasting `HIT_FLASH_DURATION`.
pub fn hit_flash_timer() -> (t: OnceTimer)
    ensures
        t@ == OnceTimerView::fresh(HIT_FLASH_DURATION as nat),
        t@.wf(),
{
    OnceTimer::new(HIT_FLASH_DURATION)
}

/// The lifetime of a fresh death particle, `PARTICLE_LIFETIME`.
pub fn particle_lifetime() -> (t: OnceTimer)
    ensures
        t@ == OnceTimerView::fresh(PARTICLE_LIFETIME as nat),
        t@.wf(),
{
    OnceTimer::new(PARTICLE_LIFETIME)
}

/// A frame of a hit flash: its timer ticks; returns whether the flash is over,
/// so that the sprite gets its colour back and the flash ends.
pub fn tick_hit_flash(timer: &mut OnceTimer, delta: u64) -> (over: bool)
    ensures
        final(timer)@ == old(timer)@.ticked(delta as nat),
        final(timer)@.wf(),
        over == final(timer)@.finished,
{
    timer.tick(delta);
    timer.is_finished()
}

/// A frame of a death particle: its lifetime ticks; returns whether it has
/// run out, so that the particle is despawned.
pub fn tick_particle_lifetime(lifetime: &mut OnceTimer, delta: u64) -> (expired: bool)
    ensures
        final(lifetime)@ == old(lifetime)@.ticked(delta as nat),
        final(lifetime)@.wf(),
        expired == final(lifetime)@.finished,
{
    lifetime.tick(delta);
    lifetime.is_finished()
}

} // verus!
