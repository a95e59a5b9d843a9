//! Core game state: the player, the world map, and the run state.

use vstd::prelude::*;

use crate::map::GameMap;
use crate::player::Player;

verus! {

/// The current state of a run. Only `Running` is entered today: pausing and
/// ending a run await the turn logic that would trigger them.
#[derive(Debug, Clone, Copy, PartialEq, Eq, Structural)]
pub enum GameState {
    /// Game is actively running
    Running,
    /// Game is temporarily paused
    Paused,
    /// Game has ended
    GameOver,
}

/// Main game structure holding all game-related data.
#[derive(Debug)]
pub struct Game {
    /// The player character
    pub player: Player,
    /// Current state of the game
    pub state: GameState,
    /// Game world map
    pub map: GameMap,
}

impl Game {
    /// A game is well-formed when its player and its map are.
    pub open spec fn wf(self) -> bool {
        self.player.wf() && self.map.wf()
    }

    /// Creates a new running game around a fresh player and the given map.
    pub fn new(player_name: String, map: GameMap) -> (game: Game)
        ensures
            game.player.is_initial(player_name@),
            game.player.wf(),
            game.state == GameState::Running,
            game.map == map,
    {
        Game {
            player: Player::new(player_name),
            state: GameState::Running,
            map,
        }
    }

    /// Advances the game by one turn: a hook for per-turn simulation. No
    /// turn logic exists yet, so the game is left untouched.
    pub fn update(&mut self)
        ensures
            *final(self) == *old(self),
    {
    }
}

} // verus!
