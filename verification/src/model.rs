//! The mathematical model of a game: what a state is and how a command
//! changes it. Every contract of the executable game speaks of this model.

use crate::types::{Action, Direction, GameError, Player, Position, TileType};
use vstd::prelude::*;

verus! {

/// How far the player sees along the facing direction, in cells.
pub const VIEW_DISTANCE: usize = 3;

/// The version that follows `version`; the counter wraps around at its top.
pub open spec fn next_version(version: u64) -> u64 {
    if version == u64::MAX {
        0
    } else {
        (version + 1) as u64
    }
}

/// Whether `tiles` is a grid of `width` columns with `height` cells each.
pub open spec fn rectangular(tiles: Seq<Seq<TileType>>, width: nat, height: nat) -> bool {
    &&& tiles.len() == width
    &&& forall|x: int| 0 <= x < tiles.len() ==> (#[trigger] tiles[x]).len() == height
}

/// Whether the cell that `goal` names is the one goal cell of `tiles`.
pub open spec fn sole_goal(tiles: Seq<Seq<TileType>>, goal: Position) -> bool {
    forall|x: int, y: int|
        0 <= x < tiles.len() && 0 <= y < tiles[x].len() ==> (#[trigger] tiles[x][y]
            == TileType::Goal <==> x == goal.x && y == goal.y)
}

/// Whether `tiles` is a maze as the generator leaves it: `width` columns of
/// `height` cells, each a wall or walkable, none a goal.
pub open spec fn fresh_maze(tiles: Seq<Seq<TileType>>, width: nat, height: nat) -> bool {
    &&& rectangular(tiles, width, height)
    &&& forall|x: int, y: int|
        0 <= x < tiles.len() && 0 <= y < tiles[x].len() ==> #[trigger] tiles[x][y]
            != TileType::Goal
}

/// Whether a grid of `width` columns and `height` rows has room for a
/// player and a goal on two different cells.
pub open spec fn playable(width: nat, height: nat) -> bool {
    width >= 1 && height >= 1 && (width >= 2 || height >= 2)
}

/// Whether `tiles` holds no goal cell but, at most, the cell that `goal`
/// names.
pub open spec fn no_other_goal(tiles: Seq<Seq<TileType>>, goal: Position) -> bool {
    forall|x: int, y: int|
        0 <= x < tiles.len() && 0 <= y < tiles[x].len() && #[trigger] tiles[x][y]
            == TileType::Goal ==> x == goal.x && y == goal.y
}

/// `tiles` with the cell that `goal` names turned into the goal cell.
pub open spec fn with_goal(tiles: Seq<Seq<TileType>>, goal: Position) -> Seq<Seq<TileType>>
    recommends
        0 <= goal.x < tiles.len(),
        0 <= goal.y < tiles[goal.x as int].len(),
{
    tiles.update(goal.x as int, tiles[goal.x as int].update(goal.y as int, TileType::Goal))
}

/// Why `tiles`, `player` and `goal` make no game, or `None` if they do.
///
/// The grid must be a rectangle of at least two cells, player and goal must
/// stand on two different cells of it, and no cell but the goal's may
/// already be a goal cell. A position outside the grid gives
/// `UnreachableIndex`, everything else `ConfigurationError`; a misshapen
/// grid is named before a position outside it.
pub open spec fn parts_error(tiles: Seq<Seq<TileType>>, player: Player, goal: Position) -> Option<
    GameError,
> {
    if tiles.len() == 0 || !playable(tiles.len(), tiles[0].len()) || !rectangular(
        tiles,
        tiles.len(),
        tiles[0].len(),
    ) {
        Some(GameError::ConfigurationError)
    } else if !(player.position.x < tiles.len() && player.position.y < tiles[0].len() && goal.x
        < tiles.len() && goal.y < tiles[0].len()) {
        Some(GameError::UnreachableIndex)
    } else if goal == player.position || !no_other_goal(tiles, goal) {
        Some(GameError::ConfigurationError)
    } else {
        None
    }
}

/// The game that starts from `tiles`, `player` and `goal`: the goal's cell
/// becomes the goal cell, whatever it was, the game is not over, and its
/// version is zero.
pub open spec fn assembled(tiles: Seq<Seq<TileType>>, player: Player, goal: Position) -> GameView
    recommends
        parts_error(tiles, player, goal) is None,
{
    GameView {
        width: tiles.len(),
        height: tiles[0].len(),
        tiles: with_goal(tiles, goal),
        player,
        goal,
        game_over: false,
        version: 0,
    }
}

/// A game as a mathematical value.
pub struct GameView {
    /// Number of columns.
    pub width: nat,
    /// Number of rows.
    pub height: nat,
    /// The grid, addressed `tiles[x][y]`.
    pub tiles: Seq<Seq<TileType>>,
    pub player: Player,
    pub goal: Position,
    pub game_over: bool,
    /// Counts the changes made to the game since it was first built.
    pub version: u64,
}

impl GameView {
    /// Whether column `x` and row `y` address a cell of the grid.
    pub open spec fn in_bounds(self, x: int, y: int) -> bool {
        0 <= x < self.width && 0 <= y < self.height
    }

    /// Whether `position` addresses a cell of the grid.
    pub open spec fn holds(self, position: Position) -> bool {
        self.in_bounds(position.x as int, position.y as int)
    }

    /// The kind of the cell in column `x` and row `y`.
    pub open spec fn tile(self, x: int, y: int) -> TileType
        recommends
            self.in_bounds(x, y),
    {
        self.tiles[x][y]
    }

    /// Whether the player could stand on column `x`, row `y`: the cell lies
    /// in the grid and is no wall.
    pub open spec fn enterable(self, x: int, y: int) -> bool {
        self.in_bounds(x, y) && self.tile(x, y).is_walkable()
    }

    /// What holds of every game: the grid is a rectangle of at least two
    /// cells whose sides fit a machine word, the player stands inside it,
    /// and it has exactly one goal cell, the one that `goal` names.
    pub open spec fn wf(self) -> bool {
        &&& playable(self.width, self.height)
        &&& self.width <= usize::MAX
        &&& self.height <= usize::MAX
        &&& rectangular(self.tiles, self.width, self.height)
        &&& self.holds(self.player.position)
        &&& self.holds(self.goal)
        &&& sole_goal(self.tiles, self.goal)
    }

    /// Whether this is a game as it is first built on a grid of `width`
    /// columns and `height` rows: well-formed, the player facing up, the goal
    /// on another cell than the player, not over, at version zero.
    pub open spec fn fresh_on(self, width: nat, height: nat) -> bool {
        &&& self.wf()
        &&& self.width == width
        &&& self.height == height
        &&& self.player.direction == Direction::Up
        &&& self.goal != self.player.position
        &&& !self.game_over
        &&& self.version == 0
    }

    /// Whether this game can be what a reset makes of `before`: a game on a
    /// grid of the same size, well-formed, the player facing up, the goal on
    /// another cell than the player, not over, one version after `before`.
    pub open spec fn restart_of(self, before: GameView) -> bool {
        &&& self.wf()
        &&& self.width == before.width
        &&& self.height == before.height
        &&& self.player.direction == Direction::Up
        &&& self.goal != self.player.position
        &&& !self.game_over
        &&& self.version == next_version(before.version)
    }

    /// Column and row of the cell `steps` cells ahead of the player.
    pub open spec fn ahead(self, steps: int) -> (int, int) {
        self.player.position.ahead(self.player.direction, steps)
    }

    /// Whether the cell `steps` cells ahead of the player lies in the grid
    /// and is no wall.
    pub open spec fn clear_ahead(self, steps: int) -> bool {
        self.enterable(self.ahead(steps).0, self.ahead(steps).1)
    }

    /// The cell `steps` cells ahead of the player, as a position.
    pub open spec fn position_ahead(self, steps: int) -> Position
        recommends
            self.in_bounds(self.ahead(steps).0, self.ahead(steps).1),
    {
        Position { x: self.ahead(steps).0 as usize, y: self.ahead(steps).1 as usize }
    }

    /// The game after `action`.
    ///
    /// A finished game ignores every command. Otherwise a command that names
    /// another direction than the player faces only turns the player; one
    /// that names the facing direction moves the player one cell ahead if
    /// that cell lies in the grid and is no wall, and does nothing if not.
    /// A move onto the goal finishes the game. Each change counts one
    /// version.
    pub open spec fn step(self, action: Action) -> GameView {
        if self.game_over {
            self
        } else if self.player.direction != action.direction() {
            GameView {
                player: Player { position: self.player.position, direction: action.direction() },
                version: next_version(self.version),
                ..self
            }
        } else if self.clear_ahead(1) {
            GameView {
                player: Player {
                    position: self.position_ahead(1),
                    direction: self.player.direction,
                },
                game_over: self.position_ahead(1) == self.goal,
                version: next_version(self.version),
                ..self
            }
        } else {
            self
        }
    }

    /// The game after each command of `actions` in turn.
    pub open spec fn run(self, actions: Seq<Action>) -> GameView
        decreases actions.len(),
    {
        if actions.len() == 0 {
            self
        } else {
            self.run(actions.drop_last()).step(actions.last())
        }
    }

    /// The cells of the grid that are goal cells, as pairs of column and row.
    pub open spec fn goal_cells(self) -> Set<(int, int)> {
        Set::new(|cell: (int, int)| self.in_bounds(cell.0, cell.1) && self.tile(cell.0, cell.1)
            == TileType::Goal)
    }

    /// How many cells ahead the player sees: the cells ahead that can be
    /// entered, one after the other, up to the first that cannot and up to
    /// `VIEW_DISTANCE` at most.
    pub open spec fn sight(self) -> nat {
        if !self.clear_ahead(1) {
            0
        } else if !self.clear_ahead(2) {
            1
        } else if !self.clear_ahead(3) {
            2
        } else {
            3
        }
    }

    /// The cells that the player sees, nearest first.
    pub open spec fn visible(self) -> Seq<Position> {
        Seq::new(self.sight(), |i: int| self.position_ahead(i + 1))
    }
}

} // verus!
