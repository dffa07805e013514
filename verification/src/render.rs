//! What a host has to paint to show a game, in units of the grid.
//!
//! The library decides which cells are painted, in which order and in which
//! paint; a host turns each patch into pixels and colours. A patch lies
//! inside one cell: its offsets and sizes count drawing units, of which a
//! cell has `SQUARE_SIZE` on each side.

use crate::game_state::GameState;
use crate::model::GameView;
use crate::types::{Direction, Player, Position, TileType};
use vstd::prelude::*;

verus! {

/// Side of a cell, in drawing units.
pub const SQUARE_SIZE: u32 = 20;

/// Thickness of the bar that shows where the player faces, in drawing units.
pub const DIRECTION_INDICATOR_SIZE: u32 = 4;

/// What a patch shows.
#[derive(Debug, Clone, Copy, PartialEq, Eq, Structural)]
pub enum Paint {
    Wall,
    Walkable,
    Goal,
    Player,
    Indicator,
    Sight,
}

impl Paint {
    /// The paint of a cell of the given kind.
    #[verifier::allow_in_spec]
    pub fn of_tile(kind: TileType) -> Paint
        returns
            (match kind {
                TileType::Goal => Paint::Goal,
                TileType::Walkable => Paint::Walkable,
                TileType::Wall => Paint::Wall,
            }),
    {
        match kind {
            TileType::Goal => Paint::Goal,
            TileType::Walkable => Paint::Walkable,
            TileType::Wall => Paint::Wall,
        }
    }
}

/// A rectangle to fill inside the cell `cell`: `left` and `top` are the
/// offsets of its corner from the cell's upper left corner.
#[derive(Debug, Clone, Copy, PartialEq, Eq, Structural)]
pub struct Patch {
    pub cell: Position,
    pub left: u32,
    pub top: u32,
    pub width: u32,
    pub height: u32,
    pub paint: Paint,
}

impl Patch {
    /// The patch that fills the whole of `cell` with `paint`.
    #[verifier::allow_in_spec]
    pub fn whole(cell: Position, paint: Paint) -> Patch
        returns
            (Patch { cell, left: 0, top: 0, width: SQUARE_SIZE, height: SQUARE_SIZE, paint }),
    {
        Patch { cell, left: 0, top: 0, width: SQUARE_SIZE, height: SQUARE_SIZE, paint }
    }

    /// The bar along the edge of the player's cell that the player faces.
    #[verifier::allow_in_spec]
    pub fn indicator(player: Player) -> Patch
        returns
            (match player.direction {
                Direction::Up => Patch {
                    cell: player.position,
                    left: 0,
                    top: 0,
                    width: SQUARE_SIZE,
                    height: DIRECTION_INDICATOR_SIZE,
                    paint: Paint::Indicator,
                },
                Direction::Down => Patch {
                    cell: player.position,
                    left: 0,
                    top: (SQUARE_SIZE - DIRECTION_INDICATOR_SIZE) as u32,
                    width: SQUARE_SIZE,
                    height: DIRECTION_INDICATOR_SIZE,
                    paint: Paint::Indicator,
                },
                Direction::Left => Patch {
                    cell: player.position,
                    left: 0,
                    top: 0,
                    width: DIRECTION_INDICATOR_SIZE,
                    height: SQUARE_SIZE,
                    paint: Paint::Indicator,
                },
                Direction::Right => Patch {
                    cell: player.position,
                    left: (SQUARE_SIZE - DIRECTION_INDICATOR_SIZE) as u32,
                    top: 0,
                    width: DIRECTION_INDICATOR_SIZE,
                    height: SQUARE_SIZE,
                    paint: Paint::Indicator,
                },
            }),
    {
        match player.direction {
            Direction::Up => Patch {
                cell: player.position,
                left: 0,
                top: 0,
                width: SQUARE_SIZE,
                height: DIRECTION_INDICATOR_SIZE,
                paint: Paint::Indicator,
            },
            Direction::Down => Patch {
                cell: player.position,
                left: 0,
                top: SQUARE_SIZE - DIRECTION_INDICATOR_SIZE,
                width: SQUARE_SIZE,
                height: DIRECTION_INDICATOR_SIZE,
                paint: Paint::Indicator,
            },
            Direction::Left => Patch {
                cell: player.position,
                left: 0,
                top: 0,
                width: DIRECTION_INDICATOR_SIZE,
                height: SQUARE_SIZE,
                paint: Paint::Indicator,
            },
            Direction::Right => Patch {
                cell: player.position,
                left: SQUARE_SIZE - DIRECTION_INDICATOR_SIZE,
                top: 0,
                width: DIRECTION_INDICATOR_SIZE,
                height: SQUARE_SIZE,
                paint: Paint::Indicator,
            },
        }
    }
}

/// Place of the cell in column `x`, row `y` in a list that holds a grid of
/// `width` columns row by row.
pub open spec fn row_major(width: nat, x: int, y: int) -> int {
    y * width + x
}

/// In a row-by-row list, a cell of an earlier row, or of the same row and
/// an earlier column, comes first.
pub proof fn lemma_row_major_order(width: nat, x1: int, y1: int, x2: int, y2: int)
    requires
        0 <= x1 < width,
        0 <= x2 < width,
        0 <= y1,
        y1 < y2 || (y1 == y2 && x1 < x2),
    ensures
        0 <= row_major(width, x1, y1) < row_major(width, x2, y2),
{
    if y1 < y2 {
        assert(y1 * width + width <= y2 * width) by (nonlinear_arith)
            requires
                y1 + 1 <= y2,
                width >= 0,
        ;
    }
    assert(0 <= y1 * width) by (nonlinear_arith)
        requires
            0 <= y1,
            width >= 0,
    ;
}

/// The patch that shows the cell in column `x`, row `y` of the grid: the
/// whole cell, in the paint of its kind.
pub open spec fn tile_patch(game: GameView, x: int, y: int) -> Patch {
    Patch::whole(Position { x: x as usize, y: y as usize }, Paint::of_tile(game.tile(x, y)))
}

/// The patches of the player's layer: the player's cell, the bar on the
/// edge that the player faces, and, nearest first, the cells that the
/// player sees.
pub open spec fn player_patches(game: GameView) -> Seq<Patch> {
    seq![Patch::whole(game.player.position, Paint::Player), Patch::indicator(game.player)]
        + Seq::new(game.visible().len(), |i: int| Patch::whole(game.visible()[i], Paint::Sight))
}

/// Length of `cells` cells side by side, in drawing units.
pub open spec fn extent(cells: nat) -> nat {
    cells * SQUARE_SIZE as nat
}

/// The grid as a list of patches.
pub struct MapView;

impl MapView {
    /// Width and height of the painted grid in drawing units, or `None` if
    /// one of them exceeds what a `u32` holds.
    pub fn size(state: &GameState) -> (size: Option<(u32, u32)>)
        ensures
            match size {
                Some((width, height)) => width == extent(state@.width) && height == extent(
                    state@.height,
                ),
                None => extent(state@.width) > u32::MAX || extent(state@.height) > u32::MAX,
            },
    {
        let limit = (u32::MAX / SQUARE_SIZE) as usize;
        let columns = state.width();
        let rows = state.height();
        if columns <= limit && rows <= limit {
            Some(((columns as u32) * SQUARE_SIZE, (rows as u32) * SQUARE_SIZE))
        } else {
            None
        }
    }

    /// One patch for each cell of the grid, row by row from the top and in
    /// each row from the left: the whole cell, in the paint of its kind.
    pub fn draw(state: &GameState) -> (plan: Vec<Patch>)
        ensures
            plan@.len() == state@.width * state@.height,
            forall|x: int, y: int|
                state@.in_bounds(x, y) ==> plan@[#[trigger] row_major(state@.width, x, y)]
                    == tile_patch(state@, x, y),
    {
        let width = state.width();
        let height = state.height();
        let mut plan: Vec<Patch> = Vec::new();
        let mut y: usize = 0;
        while y < height
            invariant
                width == state@.width,
                height == state@.height,
                y <= height,
                plan@.len() == y * width,
                forall|i: int, j: int|
                    0 <= i < width && 0 <= j < y ==> plan@[#[trigger] row_major(width as nat, i, j)]
                        == tile_patch(state@, i, j),
            decreases height - y,
        {
            let mut x: usize = 0;
            while x < width
                invariant
                    width == state@.width,
                    height == state@.height,
                    y < height,
                    x <= width,
                    plan@.len() == y * width + x,
                    forall|i: int, j: int|
                        0 <= i < width && (0 <= j < y || (j == y && i < x))
                            ==> plan@[#[trigger] row_major(width as nat, i, j)] == tile_patch(
                            state@,
                            i,
                            j,
                        ),
                decreases width - x,
            {
                let cell = Position { x, y };
                let ghost before = plan@;
                plan.push(Patch::whole(cell, Paint::of_tile(state.kind_at(cell))));
                proof {
                    assert forall|i: int, j: int|
                        0 <= i < width && (0 <= j < y || (j == y && i < x + 1))
                        implies plan@[#[trigger] row_major(width as nat, i, j)] == tile_patch(
                        state@,
                        i,
                        j,
                    ) by {
                        if !(j == y && i == x) {
                            lemma_row_major_order(width as nat, i, j, x as int, y as int);
                            assert(plan@[row_major(width as nat, i, j)] == before[row_major(
                                width as nat,
                                i,
                                j,
                            )]);
                        }
                    }
                }
                x += 1;
            }
            proof {
                assert(y * width + width == (y + 1) * width) by (nonlinear_arith);
            }
            y += 1;
        }
        proof {
            assert(height * width == width * height) by (nonlinear_arith);
        }
        plan
    }
}

/// The player's layer as a list of patches.
pub struct PlayerView;

impl PlayerView {
    /// The patches of the player's layer, in the order in which they are
    /// painted: first the player's cell, then the bar on the edge that the
    /// player faces, then the cells that the player sees, nearest first.
    pub fn draw(state: &GameState) -> (plan: Vec<Patch>)
        ensures
            plan@ == player_patches(state@),
    {
        let player = state.player();
        let view = state.get_player_view();
        let mut plan: Vec<Patch> = Vec::new();
        plan.push(Patch::whole(player.position, Paint::Player));
        plan.push(Patch::indicator(player));
        let mut i: usize = 0;
        while i < view.len()
            invariant
                i <= view@.len(),
                view@ == state@.visible(),
                player == state@.player,
                plan@.len() == 2 + i,
                plan@[0] == Patch::whole(player.position, Paint::Player),
                plan@[1] == Patch::indicator(player),
                forall|k: int|
                    2 <= k < plan@.len() ==> (#[trigger] plan@[k]) == Patch::whole(
                        view@[k - 2],
                        Paint::Sight,
                    ),
            decreases view@.len() - i,
        {
            plan.push(Patch::whole(view[i], Paint::Sight));
            i += 1;
        }
        plan
    }
}

} // verus!
