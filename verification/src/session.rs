//! The session state machine: what the entry point owns between input
//! tokens. It decides every transition; reading input lines and rendering
//! are the excluded UI collaborator's work, driven by the returned effects.

use vstd::prelude::*;
use vstd::string::StrSliceExecFns;

use crate::game::{Game, GameState};
use crate::map::{GameMap, Tile};
use crate::room::Room;

verus! {

/// Whether a token is exactly the single character `c`.
pub open spec fn is_token(s: Seq<char>, c: char) -> bool {
    s.len() == 1 && s[0] == c
}

/// Tests whether the input line is exactly the one-character token `c`.
fn token_is(input: &str, c: char) -> (r: bool)
    ensures
        r == is_token(input@, c),
{
    input.unicode_len() == 1 && input.get_char(0) == c
}

/// The tile the starting map holds at (x, y): the whole 40-by-15 grid is one
/// stamped room, walls on the outermost rows and columns and floor inside.
pub open spec fn start_map_tile(x: int, y: int) -> Tile {
    if x == 0 || x == 39 || y == 0 || y == 14 {
        Tile::Wall
    } else {
        Tile::Floor
    }
}

/// Starts a fresh run: a new player with the given name and a 40-by-15 map
/// with one centered 40-by-15 room stamped in, wrapped as a running game.
pub fn start_game(player_name: String) -> (game: Game)
    ensures
        game.wf(),
        game.player.is_initial(player_name@),
        game.state == GameState::Running,
        game.map.width == 40,
        game.map.height == 15,
        game.map.rooms@.len() == 1,
        game.map.rooms@[0] == (Room { width: 40, height: 15 }),
        forall|x: int, y: int| game.map.in_bounds(x, y) ==>
            #[trigger] game.map.tile_at(x, y) == start_map_tile(x, y),
{
    let mut map = GameMap::new(40, 15);
    map.create_room(Room::new(40, 15));
    Game::new(player_name, map)
}

/// The session: either no active game (the menu, or the name prompt that
/// precedes a new run) or an active game.
#[derive(Debug)]
pub enum Session {
    /// No active game; the main menu is showing.
    Menu,
    /// A new game was requested; the next input line is the hero's name.
    EnteringName,
    /// An active game.
    InGame(Game),
}

/// What the driver must do after a step: the session decides, the UI
/// collaborator performs.
#[derive(Debug, Clone, Copy, PartialEq, Eq, Structural)]
pub enum Effect {
    /// Clear the content and prompt for the hero's name.
    PromptName,
    /// Report that loading is not implemented and show the menu again.
    LoadNotImplemented,
    /// Say farewell and end the session loop.
    Farewell,
    /// Ask for a valid menu choice and show the menu again.
    InvalidChoice,
    /// Render the active game.
    RenderGame,
    /// Drop the game, go back to the menu and show it.
    BackToMenu,
}

impl Session {
    /// Whether the session's game, if it holds one, is well-formed.
    pub open spec fn wf(self) -> bool {
        match self {
            Session::InGame(game) => game.wf(),
            _ => true,
        }
    }

    /// Consumes one input token and moves the session machine. In the menu,
    /// "1" asks for a hero's name, "2" reports that loading is not
    /// implemented, "3" or "q" says farewell, and anything else asks for a
    /// valid choice. While a name is entered, the whole line becomes the
    /// hero's name of a fresh run. In a game, "q" discards the run and drops
    /// back to the menu; anything else advances the game one turn and
    /// re-renders it.
    pub fn step(self, input: &str) -> (outcome: (Session, Effect))
        ensures
            self.wf() ==> outcome.0.wf(),
            match self {
                Session::Menu => {
                    if is_token(input@, '1') {
                        outcome == (Session::EnteringName, Effect::PromptName)
                    } else if is_token(input@, '2') {
                        outcome == (Session::Menu, Effect::LoadNotImplemented)
                    } else if is_token(input@, '3') || is_token(input@, 'q') {
                        outcome == (Session::Menu, Effect::Farewell)
                    } else {
                        outcome == (Session::Menu, Effect::InvalidChoice)
                    }
                },
                Session::EnteringName => {
                    &&& outcome.1 == Effect::RenderGame
                    &&& outcome.0 matches Session::InGame(game) && {
                        &&& game.wf()
                        &&& game.player.is_initial(input@)
                        &&& game.state == GameState::Running
                        &&& game.map.width == 40
                        &&& game.map.height == 15
                        &&& forall|x: int, y: int| game.map.in_bounds(x, y) ==>
                            #[trigger] game.map.tile_at(x, y) == start_map_tile(x, y)
                    }
                },
                Session::InGame(game) => {
                    if is_token(input@, 'q') {
                        outcome == (Session::Menu, Effect::BackToMenu)
                    } else {
                        outcome == (Session::InGame(game), Effect::RenderGame)
                    }
                },
            },
    {
        match self {
            Session::Menu => {
                if token_is(input, '1') {
                    (Session::EnteringName, Effect::PromptName)
                } else if token_is(input, '2') {
                    (Session::Menu, Effect::LoadNotImplemented)
                } else if token_is(input, '3') || token_is(input, 'q') {
                    (Session::Menu, Effect::Farewell)
                } else {
                    (Session::Menu, Effect::InvalidChoice)
                }
            },
            Session::EnteringName => {
                let game = start_game(input.to_owned());
                (Session::InGame(game), Effect::RenderGame)
            },
            Session::InGame(mut game) => {
                if token_is(input, 'q') {
                    (Session::Menu, Effect::BackToMenu)
                } else {
                    game.update();
                    (Session::InGame(game), Effect::RenderGame)
                }
            },
        }
    }
}

} // verus!
