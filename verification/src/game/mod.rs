//! Gameplay rules: combat, the player, tools, waves and pausing.
use vstd::prelude::*;
use crate::states::GameState;
use crate::timers::{OnceTimer, OnceTimerView};
use combat::{AutoPeck, Health};

pub mod combat;
pub mod juice;
pub mod pause;
pub mod player;
pub mod tools;
pub mod waves;

verus! {

/// The player starts with ten hit points.
pub const PLAYER_HEALTH: i32 = 10;

/// The player's peck reaches 50 units: the order key of 50.0.
pub const PLAYER_PECK_RANGE: u32 = 0x4248_0000;

/// The player's peck deals one point of damage.
pub const PLAYER_PECK_DAMAGE: i32 = 1;

/// The player's health at the start of play: full, at `PLAYER_HEALTH`.
pub fn player_health() -> (h: Health)
    ensures
        h == (Health { current: PLAYER_HEALTH, max: PLAYER_HEALTH }),
{
    Health::full(PLAYER_HEALTH)
}

/// The player's peck cooldown: 0.4 s as an `f32` number of seconds reads, in
/// nanoseconds.
pub const PLAYER_PECK_COOLDOWN: u64 = 400_000_006;

/// The player's auto-peck at the start of play: range `PLAYER_PECK_RANGE`,
/// damage `PLAYER_PECK_DAMAGE`, and a cooldown of `PLAYER_PECK_COOLDOWN` that
/// has not yet run.
pub fn player_peck() -> (p: AutoPeck)
    ensures
        p.range == PLAYER_PECK_RANGE,
        p.damage == PLAYER_PECK_DAMAGE,
        p.cooldown@ == OnceTimerView::fresh(PLAYER_PECK_COOLDOWN as nat),
        p.cooldown@.wf(),
{
    AutoPeck { range: PLAYER_PECK_RANGE, cooldown: OnceTimer::new(PLAYER_PECK_COOLDOWN), damage: PLAYER_PECK_DAMAGE }
}

/// Escape during play returns to the main menu; otherwise the state stays.
pub fn back_to_menu(escape_pressed: bool) -> (next: Option<GameState>)
    ensures
        next == (if escape_pressed { Some(GameState::MainMenu) } else { None::<GameState> }),
{
    if escape_pressed {
        Some(GameState::MainMenu)
    } else {
        None
    }
}

} // verus!
