//! Pausing: Escape toggles between play and pause; the pause menu resumes or quits.
use vstd::prelude::*;
use crate::states::GameState;
use crate::menu::main_menu::{ButtonInteraction, any_pressed};

verus! {

/// The state Escape leads to: play pauses, a pause resumes play, and in any
/// other state nothing changes.
pub open spec fn paused_toggled(state: GameState) -> Option<GameState> {
    match state {
        GameState::Playing => Some(GameState::Paused),
        GameState::Paused => Some(GameState::Playing),
        _ => None,
    }
}

/// Toggles between play and pause when Escape is pressed.
pub fn toggle_pause(escape_pressed: bool, state: GameState) -> (next: Option<GameState>)
    ensures
        next == (if escape_pressed { paused_toggled(state) } else { None::<GameState> }),
{
    if escape_pressed {
        match state {
            GameState::Playing => Some(GameState::Paused),
            GameState::Paused => Some(GameState::Playing),
            _ => None,
        }
    } else {
        None
    }
}

/// Pausing twice gets back where the game was: Escape pressed in play or in
/// pause, and then again, returns to the same state.
pub proof fn lemma_toggle_twice(state: GameState)
    requires
        state == GameState::Playing || state == GameState::Paused,
    ensures
        paused_toggled(paused_toggled(state)->0) == Some(state),
{
}

/// The pause menu's buttons: Resume goes back to play and Quit to the main
/// menu; when both are pressed in one frame, Quit wins, as the later request.
pub fn pause_menu_input(resume: &[ButtonInteraction], quit: &[ButtonInteraction]) -> (next: Option<GameState>)
    ensures
        next == (if any_pressed(quit@) {
            Some(GameState::MainMenu)
        } else if any_pressed(resume@) {
            Some(GameState::Playing)
        } else {
            None::<GameState>
        }),
{
    let mut next: Option<GameState> = None;
    let mut k: usize = 0;
    while k < resume.len()
        invariant
            k <= resume@.len(),
            next == (if exists|j: int| 0 <= j < k && resume@[j] == ButtonInteraction::Pressed {
                Some(GameState::Playing)
            } else {
                None::<GameState>
            }),
        decreases resume@.len() - k,
    {
        if resume[k] == ButtonInteraction::Pressed {
            next = Some(GameState::Playing);
        }
        k = k + 1;
    }
    let mut k: usize = 0;
    while k < quit.len()
        invariant
            k <= quit@.len(),
            next == (if exists|j: int| 0 <= j < k && quit@[j] == ButtonInteraction::Pressed {
                Some(GameState::MainMenu)
            } else if any_pressed(resume@) {
                Some(GameState::Playing)
            } else {
                None::<GameState>
            }),
        decreases quit@.len() - k,
    {
        if quit[k] == ButtonInteraction::Pressed {
            next = Some(GameState::MainMenu);
        }
        k = k + 1;
    }
    next
}

} // verus!
