//! Core of a single-player grid maze game.
//!
//! A rectangular grid of tiles is drawn at random, a player stands on one
//! cell and faces one of four directions, and a goal sits on another cell.
//! Directional commands first turn the player and then walk them; stepping
//! onto the goal ends the game.
//!
//! `model` holds the mathematical model that every contract speaks of,
//! `game_state` the executable game, `laws` what is proved of every game,
//! `render` the lists of patches that show a game, and `random` the draws
//! taken from the `rand` crate.

pub mod game_state;
pub mod laws;
pub mod model;
pub mod random;
pub mod render;
pub mod types;

pub use game_state::GameState;
pub use render::{MapView, Paint, Patch, PlayerView};
pub use types::{Action, Direction, GameError, Message, Player, Position, Tile, TileType};
