//! The player: eight-way movement, facing, and which sprite to show.
use vstd::prelude::*;
use crate::timers::{OnceTimer, OnceTimerView};

verus! {

/// Which way the player last moved sideways.
#[derive(Clone, Copy, Debug, PartialEq, Eq, Structural)]
pub struct Facing {
    pub right: bool,
}

/// The movement keys held this frame.
#[derive(Clone, Copy, Debug, PartialEq, Eq, Structural)]
pub struct MoveInput {
    pub up: bool,
    pub down: bool,
    pub left: bool,
    pub right: bool,
}

/// One step of a key pair: +1, -1, or 0 when neither or both are held.
pub open spec fn axis(plus: bool, minus: bool) -> int {
    (if plus { 1int } else { 0int }) - (if minus { 1int } else { 0int })
}

/// The result of a frame of movement: the direction moved, each component
/// -1, 0 or 1 (the engine scales it to the player's speed), and whether the
/// player is moving.
#[derive(Clone, Copy, Debug, PartialEq, Eq, Structural)]
pub struct Movement {
    pub dx: i32,
    pub dy: i32,
    pub moving: bool,
}

/// Reads the movement keys: up and down, left and right each cancel out. A
/// player who moves sideways turns that way; one who moves only up or down, or
/// not at all, keeps facing as before. The sprite is mirrored when the player
/// faces left.
pub fn move_player(input: MoveInput, facing: &mut Facing) -> (m: Movement)
    ensures
        m.dx == axis(input.right, input.left),
        m.dy == axis(input.up, input.down),
        m.moving == (m.dx != 0 || m.dy != 0),
        final(facing).right == (if m.dx > 0 { true } else if m.dx < 0 { false } else { old(facing).right }),
{
    let mut dx: i32 = 0;
    let mut dy: i32 = 0;
    if input.up {
        dy = dy + 1;
    }
    if input.down {
        dy = dy - 1;
    }
    if input.left {
        dx = dx - 1;
    }
    if input.right {
        dx = dx + 1;
    }
    let moving = dx != 0 || dy != 0;
    if moving {
        if dx > 0 {
            facing.right = true;
        } else if dx < 0 {
            facing.right = false;
        }
    }
    Movement { dx, dy, moving }
}

/// Whether the sprite is mirrored: when the player faces left.
pub fn sprite_flipped(facing: &Facing) -> (b: bool)
    ensures
        b == !facing.right,
{
    !facing.right
}

/// Where the walk cycle is: the frame shown, how many frames it has, and
/// whether the player is moving.
#[derive(Clone, Copy, Debug, PartialEq, Eq, Structural)]
pub struct WalkCycle {
    pub current_frame: usize,
    pub frame_count: usize,
    pub moving: bool,
}

/// A brief override that shows the peck sprite after the auto-peck fires.
pub struct PeckFlash {
    pub timer: OnceTimer,
}

/// The sprite to show this frame.
#[derive(Clone, Copy, Debug, PartialEq, Eq, Structural)]
pub enum PlayerSprite {
    Pecking,
    Walking(usize),
    Standing,
}

/// How long the peck sprite shows: 0.12 s as an `f32` number of seconds
/// reads, in nanoseconds.
pub const PECK_FLASH_DURATION: u64 = 119_999_997;

/// A fresh peck flash lasting `PECK_FLASH_DURATION`.
pub fn trigger_peck_flash() -> (f: PeckFlash)
    ensures
        f.timer@ == OnceTimerView::fresh(PECK_FLASH_DURATION as nat),
        f.timer@.wf(),
{
    PeckFlash { timer: OnceTimer::new(PECK_FLASH_DURATION) }
}

/// A frame of the peck flash: it ticks, and the peck sprite shows; returns
/// whether the flash is over (and is to end).
pub fn tick_peck_flash(flash: &mut PeckFlash, delta: u64) -> (over: bool)
    ensures
        final(flash).timer@ == old(flash).timer@.ticked(delta as nat),
        final(flash).timer@.wf(),
        over == final(flash).timer@.finished,
{
    flash.timer.tick(delta);
    flash.timer.is_finished()
}

/// The sprite to show: the peck sprite while a flash lasts, else the walk
/// cycle while moving, else the standing sprite. Walking and standing update
/// the cycle: a moving player whose frame timer just finished goes on to the
/// next frame, round to the first after the last; a player standing still goes
/// back to the first frame. The peck flash leaves the cycle as it was.
pub fn animate_player(walk: &mut WalkCycle, flashing: bool, frame_timer_just_finished: bool) -> (s: PlayerSprite)
    requires
        old(walk).moving && !flashing ==> (if frame_timer_just_finished {
            0 < old(walk).frame_count && old(walk).current_frame < usize::MAX
        } else {
            old(walk).current_frame < old(walk).frame_count
        }),
    ensures
        final(walk).frame_count == old(walk).frame_count,
        final(walk).moving == old(walk).moving,
        flashing ==> s == PlayerSprite::Pecking && final(walk).current_frame == old(walk).current_frame,
        !flashing && old(walk).moving ==> {
            &&& final(walk).current_frame == (if frame_timer_just_finished {
                ((old(walk).current_frame + 1) % (old(walk).frame_count as int)) as usize
            } else {
                old(walk).current_frame
            })
            &&& s == PlayerSprite::Walking(final(walk).current_frame)
            &&& final(walk).current_frame < final(walk).frame_count
        },
        !flashing && !old(walk).moving ==> s == PlayerSprite::Standing && final(walk).current_frame == 0,
{
    if flashing {
        return PlayerSprite::Pecking;
    }
    if walk.moving {
        if frame_timer_just_finished {
            walk.current_frame = (walk.current_frame + 1) % walk.frame_count;
        }
        PlayerSprite::Walking(walk.current_frame)
    } else {
        walk.current_frame = 0;
        PlayerSprite::Standing
    }
}

} // verus!
