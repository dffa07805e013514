//! What holds of every game, proved over the model.
//!
//! A game starts from a constructor, whose contract gives a well-formed
//! model, and changes only by `GameView::step` and the resets; the laws
//! below follow every such change.

use crate::model::{assembled, next_version, parts_error, GameView, VIEW_DISTANCE};
use crate::types::{Action, Direction, Player, Position, TileType};
use vstd::prelude::*;

verus! {

/// The cell reached after `steps` cells in `direction` is the start moved
/// by `steps` times the direction's unit displacement.
pub proof fn lemma_ahead_is_displacement(from: Position, direction: Direction, steps: int)
    ensures
        from.ahead(direction, steps).0 == from.x + steps * direction.dx(),
        from.ahead(direction, steps).1 == from.y + steps * direction.dy(),
{
}

/// A well-formed game has exactly one goal cell, and it is the cell that
/// the game names as its goal.
pub proof fn lemma_exactly_one_goal(game: GameView)
    requires
        game.wf(),
    ensures
        game.goal_cells() == set![(game.goal.x as int, game.goal.y as int)],
        game.goal_cells().finite(),
        game.goal_cells().len() == 1,
        game.tile(game.goal.x as int, game.goal.y as int) == TileType::Goal,
{
    let only = set![(game.goal.x as int, game.goal.y as int)];
    assert forall|cell: (int, int)| game.goal_cells().contains(cell) <==> only.contains(
        cell,
    ) by {
        if game.in_bounds(cell.0, cell.1) {
            assert(game.tiles[cell.0][cell.1] == TileType::Goal <==> cell.0 == game.goal.x
                && cell.1 == game.goal.y);
        }
    }
}

/// Parts that fit make a well-formed game: it stands on the given grid, in
/// which only the goal's cell was changed, and it is not over.
pub proof fn lemma_assembled_is_wf(tiles: Seq<Seq<TileType>>, player: Player, goal: Position)
    requires
        parts_error(tiles, player, goal) is None,
        tiles.len() <= usize::MAX,
        tiles[0].len() <= usize::MAX,
    ensures
        assembled(tiles, player, goal).wf(),
        assembled(tiles, player, goal).player == player,
        assembled(tiles, player, goal).goal == goal,
        !assembled(tiles, player, goal).game_over,
        assembled(tiles, player, goal).goal != assembled(tiles, player, goal).player.position,
        forall|x: int, y: int|
            0 <= x < tiles.len() && 0 <= y < tiles[0].len() && !(x == goal.x && y == goal.y)
                ==> #[trigger] assembled(tiles, player, goal).tile(x, y) == tiles[x][y],
{
    let grid = assembled(tiles, player, goal).tiles;
    assert forall|x: int, y: int| 0 <= x < grid.len() && 0 <= y < grid[x].len() implies (
        (#[trigger] grid[x][y]) == TileType::Goal <==> x == goal.x && y == goal.y
    ) by {}
}

/// A command leaves a well-formed game well-formed: the grid keeps its
/// shape and its one goal cell, and the player stays inside the grid.
pub proof fn lemma_step_keeps_wf(game: GameView, action: Action)
    requires
        game.wf(),
    ensures
        game.step(action).wf(),
        game.step(action).holds(game.step(action).player.position),
        game.step(action).width == game.width,
        game.step(action).height == game.height,
        game.step(action).tiles == game.tiles,
        game.step(action).goal == game.goal,
{
}

/// Any run of commands leaves a well-formed game well-formed, on the same
/// grid and with the same goal.
pub proof fn lemma_run_keeps_wf(game: GameView, actions: Seq<Action>)
    requires
        game.wf(),
    ensures
        game.run(actions).wf(),
        game.run(actions).holds(game.run(actions).player.position),
        game.run(actions).width == game.width,
        game.run(actions).height == game.height,
        game.run(actions).tiles == game.tiles,
        game.run(actions).goal == game.goal,
    decreases actions.len(),
{
    if actions.len() > 0 {
        lemma_run_keeps_wf(game, actions.drop_last());
        lemma_step_keeps_wf(game.run(actions.drop_last()), actions.last());
    }
}

/// If a game is over exactly when its player stands on the goal, the same
/// holds after any command. It holds of every new game, whose player and
/// goal stand apart.
pub proof fn lemma_over_iff_on_goal(game: GameView, action: Action)
    requires
        game.wf(),
        game.game_over <==> game.player.position == game.goal,
    ensures
        game.step(action).game_over <==> game.step(action).player.position == game.goal,
{
}

/// The first command toward a direction that the player does not face only
/// turns the player; the same command again walks the player one cell that
/// way if that cell lies in the grid and is no wall, and changes nothing
/// if not.
pub proof fn lemma_turn_before_move(game: GameView, action: Action)
    requires
        game.wf(),
        !game.game_over,
        game.player.direction != action.direction(),
    ensures
        game.step(action).player.direction == action.direction(),
        game.step(action).player.position == game.player.position,
        !game.step(action).game_over,
        game.step(action).clear_ahead(1) ==> game.step(action).step(action).player.position
            == game.step(action).position_ahead(1),
        game.step(action).clear_ahead(1) ==> {
            &&& game.step(action).step(action).player.position.x == game.player.position.x
                + action.direction().dx()
            &&& game.step(action).step(action).player.position.y == game.player.position.y
                + action.direction().dy()
        },
        !game.step(action).clear_ahead(1) ==> game.step(action).step(action) == game.step(action),
{
}

/// While the cell ahead of the player is a wall, commands toward it change
/// nothing, however many are given.
pub proof fn lemma_wall_blocks(game: GameView, action: Action, times: nat)
    requires
        game.wf(),
        action.direction() == game.player.direction,
        game.in_bounds(game.ahead(1).0, game.ahead(1).1),
        game.tile(game.ahead(1).0, game.ahead(1).1) == TileType::Wall,
    ensures
        game.step(action) == game,
        game.run(Seq::new(times, |i: int| action)) == game,
    decreases times,
{
    if times > 0 {
        let all = Seq::new(times, |i: int| action);
        let fewer = Seq::new((times - 1) as nat, |i: int| action);
        assert(all.drop_last() =~= fewer);
        lemma_wall_blocks(game, action, (times - 1) as nat);
    }
}

/// At the grid's edge, commands toward the edge change nothing, however
/// many are given: a player in column 0 who faces left stays there, and so
/// at the other three edges.
pub proof fn lemma_edge_blocks(game: GameView, action: Action, times: nat)
    requires
        game.wf(),
        action.direction() == game.player.direction,
        !game.in_bounds(game.ahead(1).0, game.ahead(1).1),
    ensures
        game.step(action) == game,
        game.run(Seq::new(times, |i: int| action)) == game,
    decreases times,
{
    if times > 0 {
        let all = Seq::new(times, |i: int| action);
        let fewer = Seq::new((times - 1) as nat, |i: int| action);
        assert(all.drop_last() =~= fewer);
        lemma_edge_blocks(game, action, (times - 1) as nat);
    }
}

/// A player in the leftmost column who faces left has the edge ahead, and
/// likewise in the top row facing up, in the rightmost column facing right
/// and in the bottom row facing down.
pub proof fn lemma_edge_ahead(game: GameView)
    requires
        game.wf(),
    ensures
        game.player.direction == Direction::Left && game.player.position.x == 0
            ==> !game.in_bounds(game.ahead(1).0, game.ahead(1).1),
        game.player.direction == Direction::Up && game.player.position.y == 0
            ==> !game.in_bounds(game.ahead(1).0, game.ahead(1).1),
        game.player.direction == Direction::Right && game.player.position.x + 1 == game.width
            ==> !game.in_bounds(game.ahead(1).0, game.ahead(1).1),
        game.player.direction == Direction::Down && game.player.position.y + 1 == game.height
            ==> !game.in_bounds(game.ahead(1).0, game.ahead(1).1),
{
}

/// A move onto the goal's cell ends the game, and a finished game stays as
/// it is under every command and every run of commands: position,
/// direction and version included.
pub proof fn lemma_goal_ends_game(game: GameView, action: Action, later: Seq<Action>)
    requires
        game.wf(),
        !game.game_over,
        action.direction() == game.player.direction,
        game.ahead(1) == (game.goal.x as int, game.goal.y as int),
    ensures
        game.step(action).game_over,
        game.step(action).player.position == game.goal,
        game.step(action).run(later) == game.step(action),
{
    lemma_exactly_one_goal(game);
    lemma_finished_stays(game.step(action), later);
}

/// A finished game stays as it is under every run of commands.
pub proof fn lemma_finished_stays(game: GameView, later: Seq<Action>)
    requires
        game.game_over,
    ensures
        game.run(later) == game,
    decreases later.len(),
{
    if later.len() > 0 {
        lemma_finished_stays(game, later.drop_last());
    }
}

/// A move never ends on a wall: whenever a command changes the player's
/// position, the new cell is walkable, and a player who stands on a
/// walkable cell stands on one after every command.
pub proof fn lemma_moves_avoid_walls(game: GameView, action: Action)
    requires
        game.wf(),
    ensures
        ({
            let before = game.player.position;
            let after = game.step(action).player.position;
            &&& after != before ==> game.tile(after.x as int, after.y as int).is_walkable()
            &&& game.tile(before.x as int, before.y as int).is_walkable() ==> game.tile(
                after.x as int,
                after.y as int,
            ).is_walkable()
        }),
{
}

/// A reset gives a running game on a grid of the same size, whether the
/// game before it was over or not, and so do two resets in a row; each
/// counts one version.
pub proof fn lemma_resets_keep_size(start: GameView, once: GameView, twice: GameView)
    requires
        once.restart_of(start),
        twice.restart_of(once),
    ensures
        !once.game_over,
        once.width == start.width,
        once.height == start.height,
        once.version != start.version,
        !twice.game_over,
        twice.wf(),
        twice.width == start.width,
        twice.height == start.height,
        twice.version == next_version(next_version(start.version)),
{
}

/// A command changes the version exactly if it changes anything else: a
/// turn or a move counts one version, an ignored command none.
pub proof fn lemma_version_tracks_change(game: GameView, action: Action)
    requires
        game.wf(),
    ensures
        game.step(action) == game || game.step(action).version == next_version(game.version),
        game.step(action).version != game.version <==> game.step(action) != game,
        game.step(action).version == game.version <==> (game.step(action).player == game.player
            && game.step(action).game_over == game.game_over),
{
}

/// The player sees at most `VIEW_DISTANCE` cells. The cell at index `i` of
/// what they see lies `i + 1` cells ahead of them in the facing direction,
/// inside the grid, and is no wall; the view ends where the next cell ahead
/// could not be entered.
pub proof fn lemma_view_is_clear_run(game: GameView)
    requires
        game.wf(),
    ensures
        game.visible().len() <= VIEW_DISTANCE,
        forall|i: int|
            0 <= i < game.visible().len() ==> {
                &&& game.holds(#[trigger] game.visible()[i])
                &&& game.visible()[i].x == game.ahead(i + 1).0
                &&& game.visible()[i].y == game.ahead(i + 1).1
                &&& game.tile(game.visible()[i].x as int, game.visible()[i].y as int)
                    != TileType::Wall
            },
        game.visible().len() < VIEW_DISTANCE ==> !game.clear_ahead(game.visible().len() as int + 1),
{
}

} // verus!
