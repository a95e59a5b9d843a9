//! Core of a small terminal dungeon-crawler: player progression (leveling,
//! damage and heal arithmetic, equip/use transactions), tile-map construction
//! (grid, centered room stamping), and the session state machine that switches
//! between the menu and an active run. Rendering and input collection live
//! outside this crate; it exposes the game state they read and the
//! transitions they drive.

pub mod game;
pub mod item;
pub mod map;
pub mod player;
pub mod room;
pub mod session;
pub mod utils;

pub use game::{Game, GameState};
pub use item::{Item, ItemType};
pub use map::{GameMap, Tile};
pub use player::{ItemError, Player};
pub use room::Room;
pub use session::{Effect, Session};
pub use utils::get_terminal_size_or_default;
