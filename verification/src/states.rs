//! The game's top-level states and its level sequence.
use vstd::prelude::*;

verus! {

/// Where the game is: loading, in a menu, in a cutscene, playing or paused.
#[derive(Clone, Copy, Debug, PartialEq, Eq, Structural, Hash)]
pub enum GameState {
    Loading,
    MainMenu,
    Cutscene,
    Playing,
    Paused,
}

impl Default for GameState {
    /// The game starts by loading.
    fn default() -> (s: GameState)
        ensures
            s == GameState::Loading,
    {
        GameState::Loading
    }
}

/// The index of the level being played.
pub struct CurrentLevel(pub usize);

/// A stage of the story: a cutscene or a level, each named.
pub enum Stage {
    Cutscene(String),
    Level(String),
}

/// The stages of the story in order, and the one reached.
pub struct LevelSequence {
    pub stages: Vec<Stage>,
    pub current: usize,
}

} // verus!
