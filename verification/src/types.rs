//! Plain data of the game: tiles, positions, directions and commands.

use vstd::prelude::*;

verus! {

/// What a cell of the grid is.
#[derive(Debug, Clone, Copy, PartialEq, Eq, Structural)]
pub enum TileType {
    Wall,
    Walkable,
    Goal,
}

impl TileType {
    /// Whether the player may enter a cell of this kind. Only a wall keeps
    /// the player out; the goal is a walkable cell.
    #[verifier::allow_in_spec]
    pub fn is_walkable(self) -> bool
        returns
            self != TileType::Wall,
    {
        match self {
            TileType::Wall => false,
            TileType::Walkable => true,
            TileType::Goal => true,
        }
    }

    /// The kind of a freshly generated cell, from the outcome of its draw.
    #[verifier::allow_in_spec]
    pub fn from_walkable(walkable: bool) -> TileType
        returns
            (if walkable {
                TileType::Walkable
            } else {
                TileType::Wall
            }),
    {
        if walkable {
            TileType::Walkable
        } else {
            TileType::Wall
        }
    }
}

/// One cell of the grid.
#[derive(Debug, Clone, Copy, PartialEq, Eq, Structural)]
pub struct Tile {
    pub tile_type: TileType,
}

/// A column and a row of the grid; `y` grows downward.
#[derive(Debug, Clone, Copy, PartialEq, Eq, Structural)]
pub struct Position {
    pub x: usize,
    pub y: usize,
}

/// The four ways a player can face.
#[derive(Debug, Clone, Copy, PartialEq, Eq, Structural)]
pub enum Direction {
    Up,
    Down,
    Right,
    Left,
}

impl Direction {
    /// Change of `x` when walking one cell this way.
    pub open spec fn dx(self) -> int {
        match self {
            Direction::Left => -1,
            Direction::Right => 1,
            _ => 0,
        }
    }

    /// Change of `y` when walking one cell this way.
    pub open spec fn dy(self) -> int {
        match self {
            Direction::Up => -1,
            Direction::Down => 1,
            _ => 0,
        }
    }
}

impl Position {
    /// Column and row reached from here after `steps` cells in `direction`.
    /// The result may lie outside any grid, so it is a pair of integers.
    pub open spec fn ahead(self, direction: Direction, steps: int) -> (int, int) {
        match direction {
            Direction::Up => (self.x as int, self.y - steps),
            Direction::Down => (self.x as int, self.y + steps),
            Direction::Left => (self.x - steps, self.y as int),
            Direction::Right => (self.x + steps, self.y as int),
        }
    }
}

/// Where the player stands and which way they face.
#[derive(Debug, Clone, Copy, PartialEq, Eq, Structural)]
pub struct Player {
    pub position: Position,
    pub direction: Direction,
}

/// A directional command, the only input to a running game.
#[derive(Debug, Clone, Copy, PartialEq, Eq, Structural)]
pub enum Action {
    Up,
    Down,
    Right,
    Left,
}

impl Action {
    /// The direction that the command names.
    #[verifier::allow_in_spec]
    pub fn direction(self) -> Direction
        returns
            (match self {
                Action::Up => Direction::Up,
                Action::Down => Direction::Down,
                Action::Right => Direction::Right,
                Action::Left => Direction::Left,
            }),
    {
        match self {
            Action::Up => Direction::Up,
            Action::Down => Direction::Down,
            Action::Right => Direction::Right,
            Action::Left => Direction::Left,
        }
    }
}

/// What a host can ask of a game: a fresh start or a directional command.
#[derive(Debug, Clone, Copy, PartialEq, Eq, Structural)]
pub enum Message {
    Reset,
    Up,
    Down,
    Right,
    Left,
}

impl Message {
    /// The command that the message carries; `Reset` carries none.
    #[verifier::allow_in_spec]
    pub fn action(self) -> Option<Action>
        returns
            (match self {
                Message::Reset => None,
                Message::Up => Some(Action::Up),
                Message::Down => Some(Action::Down),
                Message::Right => Some(Action::Right),
                Message::Left => Some(Action::Left),
            }),
    {
        match self {
            Message::Reset => None,
            Message::Up => Some(Action::Up),
            Message::Down => Some(Action::Down),
            Message::Right => Some(Action::Right),
            Message::Left => Some(Action::Left),
        }
    }
}

/// Why the library refused a request.
#[derive(Debug, Clone, Copy, PartialEq, Eq, Structural)]
pub enum GameError {
    /// The grid's dimensions leave no room for a player and a goal, or the
    /// parts of a game do not fit together.
    ConfigurationError,
    /// A position addresses a cell outside the grid.
    UnreachableIndex,
}

} // verus!
