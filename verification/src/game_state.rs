//! The running game: its state, how it is built, and the commands on it.

use crate::model::{
    assembled, fresh_maze, next_version, no_other_goal, parts_error, playable, rectangular,
    with_goal, GameView, VIEW_DISTANCE,
};
use crate::random::{draw_below, draw_ratio, generator_from, thread_generator};
use crate::types::{
    Action, Direction, GameError, Message, Player, Position, Tile, TileType,
};
use rand::rngs::StdRng;
use vstd::prelude::*;

verus! {

/// A generated cell is walkable with probability
/// `WALKABLE_NUMERATOR / WALKABLE_DENOMINATOR`.
pub const WALKABLE_NUMERATOR: u32 = 4;

/// See `WALKABLE_NUMERATOR`.
pub const WALKABLE_DENOMINATOR: u32 = 5;

/// How often the goal is drawn anew, at most, while the draws hit the
/// player's cell.
pub const GOAL_DRAW_LIMIT: u64 = 0xffff_ffff_ffff_ffff;

/// The kinds of the cells of `tiles`, addressed `[x][y]` like `tiles`.
pub open spec fn grid_of(tiles: Seq<Vec<Tile>>) -> Seq<Seq<TileType>> {
    Seq::new(tiles.len(), |x: int| Seq::new(tiles[x]@.len(), |y: int| tiles[x]@[y].tile_type))
}

/// A game in progress or finished.
///
/// Its fields are private: a game is built by `new`, `with_rng` or
/// `from_parts`, changed by `apply_action` and the two resets, and read
/// through the accessors, so every value of this type models a well-formed
/// game.
#[derive(Debug)]
pub struct GameState {
    width: usize,
    height: usize,
    tiles: Vec<Vec<Tile>>,
    player: Player,
    goal: Position,
    game_over: bool,
    version: u64,
}

impl View for GameState {
    type V = GameView;

    closed spec fn view(&self) -> GameView {
        GameView {
            width: self.width as nat,
            height: self.height as nat,
            tiles: grid_of(self.tiles@),
            player: self.player,
            goal: self.goal,
            game_over: self.game_over,
            version: self.version,
        }
    }
}

impl GameState {
    /// Every value of the type models a well-formed game.
    #[verifier::type_invariant]
    closed spec fn well_formed(&self) -> bool {
        self@.wf()
    }

    /// Puts a game together from parts that fit.
    fn assemble(tiles: Vec<Vec<Tile>>, player: Player, goal: Position) -> (state: GameState)
        requires
            parts_error(grid_of(tiles@), player, goal) is None,
        ensures
            state@ == assembled(grid_of(tiles@), player, goal),
            state@.wf(),
    {
        let width = tiles.len();
        let height = tiles[0].len();
        let mut tiles = tiles;
        let ghost before = tiles@;
        tiles[goal.x][goal.y] = Tile { tile_type: TileType::Goal };
        proof {
            assert(grid_of(tiles@) =~~= with_goal(grid_of(before), goal));
        }
        GameState { width, height, tiles, player, goal, game_over: false, version: 0 }
    }

    /// Generates a maze of `width` columns and `height` rows, addressed
    /// `[x][y]`. Each cell is drawn on its own from `rng`: walkable with
    /// probability `WALKABLE_NUMERATOR / WALKABLE_DENOMINATOR`, a wall
    /// otherwise. No cell is a goal yet, and no path between cells is
    /// promised.
    pub fn create_maze(width: usize, height: usize, rng: &mut StdRng) -> (tiles: Vec<Vec<Tile>>)
        ensures
            fresh_maze(grid_of(tiles@), width as nat, height as nat),
    {
        let mut tiles: Vec<Vec<Tile>> = Vec::new();
        while tiles.len() < width
            invariant
                tiles@.len() <= width,
                fresh_maze(grid_of(tiles@), tiles@.len(), height as nat),
            decreases width - tiles@.len(),
        {
            let mut column: Vec<Tile> = Vec::new();
            while column.len() < height
                invariant
                    column@.len() <= height,
                    forall|y: int|
                        0 <= y < column@.len() ==> (#[trigger] column@[y]).tile_type
                            != TileType::Goal,
                decreases height - column@.len(),
            {
                let walkable = draw_ratio(rng, WALKABLE_NUMERATOR, WALKABLE_DENOMINATOR);
                column.push(Tile { tile_type: TileType::from_walkable(walkable) });
            }
            let ghost before = tiles@;
            tiles.push(column);
            proof {
                assert forall|x: int| 0 <= x < tiles@.len() implies (#[trigger] grid_of(
                    tiles@,
                )[x]).len() == height by {
                    if x < before.len() {
                        assert(grid_of(before)[x].len() == height);
                    }
                }
                assert forall|x: int, y: int|
                    0 <= x < grid_of(tiles@).len() && 0 <= y < grid_of(
                        tiles@,
                    )[x].len() implies #[trigger] grid_of(tiles@)[x][y] != TileType::Goal by {
                    if x < before.len() {
                        assert(grid_of(before)[x][y] != TileType::Goal);
                    }
                }
            }
        }
        tiles
    }

    /// Draws a cell of a grid of `width` columns and `height` rows, column
    /// and row each uniformly.
    fn draw_position(width: usize, height: usize, rng: &mut StdRng) -> (position: Position)
        requires
            width > 0,
            height > 0,
        ensures
            position.x < width,
            position.y < height,
    {
        let x = draw_below(rng, width);
        let y = draw_below(rng, height);
        Position { x, y }
    }

    /// A cell of the grid next to `taken`: the one to its right, or at the
    /// right edge the one to its left, or in a grid of one column the one
    /// below, or at the bottom the one above.
    pub fn other_cell(width: usize, height: usize, taken: Position) -> (cell: Position)
        requires
            playable(width as nat, height as nat),
            taken.x < width,
            taken.y < height,
        ensures
            cell == (if taken.x + 1 < width {
                Position { x: (taken.x + 1) as usize, y: taken.y }
            } else if taken.x > 0 {
                Position { x: (taken.x - 1) as usize, y: taken.y }
            } else if taken.y + 1 < height {
                Position { x: taken.x, y: (taken.y + 1) as usize }
            } else {
                Position { x: taken.x, y: (taken.y - 1) as usize }
            }),
            cell.x < width,
            cell.y < height,
            cell != taken,
    {
        if taken.x < width - 1 {
            Position { x: taken.x + 1, y: taken.y }
        } else if taken.x > 0 {
            Position { x: taken.x - 1, y: taken.y }
        } else if taken.y < height - 1 {
            Position { x: taken.x, y: taken.y + 1 }
        } else {
            Position { x: taken.x, y: taken.y - 1 }
        }
    }

    /// Draws the goal's cell: uniformly over the grid, again and again until
    /// the draw differs from `player`.
    ///
    /// On a grid of `n` cells a run of `k` redraws has probability `n^-k`,
    /// so the loop ends quickly; that it ends at all, whatever the generator
    /// returns, is owed to `GOAL_DRAW_LIMIT`. After that many redraws the
    /// goal is put on `other_cell` of the player's cell.
    fn draw_goal(width: usize, height: usize, player: Position, rng: &mut StdRng) -> (goal:
        Position)
        requires
            playable(width as nat, height as nat),
            player.x < width,
            player.y < height,
        ensures
            goal.x < width,
            goal.y < height,
            goal != player,
    {
        let mut goal = Self::draw_position(width, height, rng);
        let mut redraws: u64 = 0;
        while goal.x == player.x && goal.y == player.y && redraws < GOAL_DRAW_LIMIT
            invariant
                width > 0,
                height > 0,
                goal.x < width,
                goal.y < height,
                redraws <= GOAL_DRAW_LIMIT,
            decreases GOAL_DRAW_LIMIT - redraws,
        {
            goal = Self::draw_position(width, height, rng);
            redraws += 1;
        }
        if goal.x == player.x && goal.y == player.y {
            Self::other_cell(width, height, player)
        } else {
            goal
        }
    }

    /// Draws a game on a grid that has room for one.
    fn generate(width: usize, height: usize, rng: &mut StdRng) -> (state: GameState)
        requires
            playable(width as nat, height as nat),
        ensures
            state@.fresh_on(width as nat, height as nat),
    {
        let tiles = Self::create_maze(width, height, rng);
        let position = Self::draw_position(width, height, rng);
        let goal = Self::draw_goal(width, height, position, rng);
        let player = Player { position, direction: Direction::Up };
        Self::assemble(tiles, player, goal)
    }

    /// A generator seeded from the calling thread's.
    fn thread_seeded() -> StdRng {
        let mut parent = thread_generator();
        generator_from(&mut parent)
    }

    /// Builds a game on a grid of `width` columns and `height` rows, with
    /// every draw taken from `rng`: the maze, then the player's cell, then
    /// the goal's cell, which differs from the player's. The player faces up
    /// and may stand on a wall; the goal's cell becomes the goal cell,
    /// whatever was drawn for it.
    ///
    /// A grid without two cells has no room for player and goal and is
    /// refused with `ConfigurationError`; every other grid gives a game.
    pub fn with_rng(width: usize, height: usize, rng: &mut StdRng) -> (result: Result<
        GameState,
        GameError,
    >)
        ensures
            match result {
                Ok(state) => playable(width as nat, height as nat) && state@.fresh_on(
                    width as nat,
                    height as nat,
                ),
                Err(error) => !playable(width as nat, height as nat) && error
                    == GameError::ConfigurationError,
            },
    {
        if width == 0 || height == 0 || (width == 1 && height == 1) {
            Err(GameError::ConfigurationError)
        } else {
            Ok(Self::generate(width, height, rng))
        }
    }

    /// Builds a game on a grid of `width` columns and `height` rows, as
    /// `with_rng` does, with a generator seeded from the calling thread's.
    pub fn new(width: usize, height: usize) -> (result: Result<GameState, GameError>)
        ensures
            match result {
                Ok(state) => playable(width as nat, height as nat) && state@.fresh_on(
                    width as nat,
                    height as nat,
                ),
                Err(error) => !playable(width as nat, height as nat) && error
                    == GameError::ConfigurationError,
            },
    {
        let mut rng = Self::thread_seeded();
        Self::with_rng(width, height, &mut rng)
    }

    /// Whether every column of `tiles` has `height` cells.
    fn columns_have(tiles: &Vec<Vec<Tile>>, height: usize) -> (even: bool)
        ensures
            even == rectangular(grid_of(tiles@), tiles@.len(), height as nat),
    {
        let mut x: usize = 0;
        while x < tiles.len()
            invariant
                x <= tiles@.len(),
                forall|i: int| 0 <= i < x ==> (#[trigger] grid_of(tiles@)[i]).len() == height,
            decreases tiles@.len() - x,
        {
            if tiles[x].len() != height {
                assert(grid_of(tiles@)[x as int].len() != height);
                return false;
            }
            x += 1;
        }
        true
    }

    /// Whether no cell of `tiles` but the one at `goal` is a goal cell.
    fn lacks_other_goal(tiles: &Vec<Vec<Tile>>, goal: Position) -> (clean: bool)
        ensures
            clean == no_other_goal(grid_of(tiles@), goal),
    {
        let mut x: usize = 0;
        while x < tiles.len()
            invariant
                x <= tiles@.len(),
                forall|i: int, j: int|
                    0 <= i < x && 0 <= j < grid_of(tiles@)[i].len() && #[trigger] grid_of(
                        tiles@,
                    )[i][j] == TileType::Goal ==> i == goal.x && j == goal.y,
            decreases tiles@.len() - x,
        {
            let mut y: usize = 0;
            while y < tiles[x].len()
                invariant
                    x < tiles@.len(),
                    y <= tiles@[x as int]@.len(),
                    forall|i: int, j: int|
                        0 <= i < x && 0 <= j < grid_of(tiles@)[i].len() && #[trigger] grid_of(
                            tiles@,
                        )[i][j] == TileType::Goal ==> i == goal.x && j == goal.y,
                    forall|j: int|
                        0 <= j < y && #[trigger] grid_of(tiles@)[x as int][j] == TileType::Goal
                            ==> x == goal.x && j == goal.y,
                decreases tiles@[x as int]@.len() - y,
            {
                let stray = match tiles[x][y].tile_type {
                    TileType::Goal => !(x == goal.x && y == goal.y),
                    _ => false,
                };
                if stray {
                    assert(grid_of(tiles@)[x as int][y as int] == TileType::Goal);
                    return false;
                }
                y += 1;
            }
            x += 1;
        }
        true
    }

    /// Builds a game from chosen parts: the grid `tiles`, addressed
    /// `tiles[x][y]`, the player and the goal's position. The goal's cell
    /// becomes the goal cell; the game starts unfinished, at version zero.
    ///
    /// The parts are refused, with the error that `parts_error` names, unless
    /// the grid is a rectangle of at least two cells, player and goal stand
    /// on two different cells of it, and no other cell is a goal cell.
    pub fn from_parts(tiles: Vec<Vec<Tile>>, player: Player, goal: Position) -> (result: Result<
        GameState,
        GameError,
    >)
        ensures
            match result {
                Ok(state) => {
                    &&& parts_error(grid_of(tiles@), player, goal) is None
                    &&& state@ == assembled(grid_of(tiles@), player, goal)
                    &&& state@.wf()
                },
                Err(error) => parts_error(grid_of(tiles@), player, goal) == Some(error),
            },
    {
        let width = tiles.len();
        if width == 0 {
            return Err(GameError::ConfigurationError);
        }
        let height = tiles[0].len();
        if height == 0 || !Self::columns_have(&tiles, height) || (width == 1 && height == 1) {
            return Err(GameError::ConfigurationError);
        }
        if !(player.position.x < width && player.position.y < height && goal.x < width && goal.y
            < height) {
            return Err(GameError::UnreachableIndex);
        }
        if (goal.x == player.position.x && goal.y == player.position.y) || !Self::lacks_other_goal(
            &tiles,
            goal,
        ) {
            return Err(GameError::ConfigurationError);
        }
        Ok(Self::assemble(tiles, player, goal))
    }

    /// Number of columns of the grid.
    pub fn width(&self) -> (width: usize)
        ensures
            width == self@.width,
            self@.wf(),
    {
        proof {
            use_type_invariant(self);
        }
        self.width
    }

    /// Number of rows of the grid.
    pub fn height(&self) -> (height: usize)
        ensures
            height == self@.height,
            self@.wf(),
    {
        proof {
            use_type_invariant(self);
        }
        self.height
    }

    /// The player: position and facing direction.
    pub fn player(&self) -> (player: Player)
        ensures
            player == self@.player,
            self@.holds(player.position),
    {
        proof {
            use_type_invariant(self);
        }
        self.player
    }

    /// The position of the goal cell.
    pub fn goal(&self) -> (goal: Position)
        ensures
            goal == self@.goal,
            self@.holds(goal),
            self@.tile(goal.x as int, goal.y as int) == TileType::Goal,
    {
        proof {
            use_type_invariant(self);
        }
        self.goal
    }

    /// Whether the player has reached the goal.
    pub fn game_over(&self) -> (over: bool)
        ensures
            over == self@.game_over,
    {
        self.game_over
    }

    /// How many changes the game has seen. Two reads give the same number
    /// exactly if no command and no reset changed the game in between, up
    /// to the counter's wrap-around.
    pub fn version(&self) -> (version: u64)
        ensures
            version == self@.version,
    {
        self.version
    }

    /// The kind of the cell in column `x`, row `y`; `UnreachableIndex` if
    /// the grid has no such cell.
    pub fn tile_type(&self, x: usize, y: usize) -> (result: Result<TileType, GameError>)
        ensures
            self@.in_bounds(x as int, y as int) ==> result == Ok::<TileType, GameError>(
                self@.tile(x as int, y as int),
            ),
            !self@.in_bounds(x as int, y as int) ==> result == Err::<TileType, GameError>(
                GameError::UnreachableIndex,
            ),
    {
        proof {
            use_type_invariant(self);
        }
        if x < self.width && y < self.height {
            Ok(self.tiles[x][y].tile_type)
        } else {
            Err(GameError::UnreachableIndex)
        }
    }

    /// The kind of the cell at `position`, which must lie in the grid.
    pub(crate) fn kind_at(&self, position: Position) -> (kind: TileType)
        requires
            self@.holds(position),
        ensures
            kind == self@.tile(position.x as int, position.y as int),
    {
        proof {
            use_type_invariant(self);
        }
        self.tiles[position.x][position.y].tile_type
    }

    /// The cell next to `from` in `direction`, or `None` at the grid's edge.
    fn neighbor(&self, from: Position, direction: Direction) -> (next: Option<Position>)
        requires
            self@.holds(from),
        ensures
            match next {
                Some(cell) => {
                    &&& self@.in_bounds(from.ahead(direction, 1).0, from.ahead(direction, 1).1)
                    &&& cell.x == from.ahead(direction, 1).0
                    &&& cell.y == from.ahead(direction, 1).1
                },
                None => !self@.in_bounds(from.ahead(direction, 1).0, from.ahead(direction, 1).1),
            },
    {
        proof {
            use_type_invariant(self);
        }
        match direction {
            Direction::Up => if from.y > 0 {
                Some(Position { x: from.x, y: from.y - 1 })
            } else {
                None
            },
            Direction::Down => if from.y < self.height - 1 {
                Some(Position { x: from.x, y: from.y + 1 })
            } else {
                None
            },
            Direction::Right => if from.x < self.width - 1 {
                Some(Position { x: from.x + 1, y: from.y })
            } else {
                None
            },
            Direction::Left => if from.x > 0 {
                Some(Position { x: from.x - 1, y: from.y })
            } else {
                None
            },
        }
    }

    /// Finishes the game if the player stands on the goal.
    fn check_goal(&mut self)
        ensures
            final(self)@ == (GameView {
                game_over: old(self)@.game_over || old(self)@.player.position == old(self)@.goal,
                ..old(self)@
            }),
    {
        proof {
            use_type_invariant(&*self);
        }
        if self.player.position.x == self.goal.x && self.player.position.y == self.goal.y {
            self.game_over = true;
        }
    }

    /// Counts one change.
    fn bump_version(&mut self)
        ensures
            final(self)@ == (GameView {
                version: next_version(old(self)@.version),
                ..old(self)@
            }),
    {
        proof {
            use_type_invariant(&*self);
        }
        if self.version == u64::MAX {
            self.version = 0;
        } else {
            self.version = self.version + 1;
        }
    }

    /// Carries out one command: `action` turns the player toward its
    /// direction, or, if the player already faces that way, walks them one
    /// cell ahead unless the grid ends there or a wall stands there. A
    /// finished game ignores the command. The game after the call is the
    /// model's `step` of the game before it.
    pub fn apply_action(&mut self, action: Action)
        ensures
            final(self)@ == old(self)@.step(action),
            final(self)@.wf(),
    {
        proof {
            use_type_invariant(&*self);
        }
        if self.game_over {
            return ;
        }
        let direction = action.direction();
        if self.player.direction != direction {
            self.player.direction = direction;
            self.bump_version();
            return ;
        }
        match self.neighbor(self.player.position, direction) {
            Some(next) => {
                if self.kind_at(next).is_walkable() {
                    self.player.position = next;
                    self.check_goal();
                    self.bump_version();
                }
            },
            None => {},
        }
        proof {
            use_type_invariant(&*self);
        }
    }

    /// Replaces the game by a fresh one on a grid of the same size, with
    /// every draw taken from `rng`: a new maze, a new cell for the player,
    /// who faces up again, and a new goal on another cell. A finished game
    /// runs again. The version counts the reset as one change.
    pub fn reset_with_rng(&mut self, rng: &mut StdRng)
        ensures
            final(self)@.restart_of(old(self)@),
    {
        proof {
            use_type_invariant(&*self);
        }
        let mut fresh = Self::generate(self.width, self.height, rng);
        fresh.version = self.version;
        fresh.bump_version();
        *self = fresh;
    }

    /// Replaces the game by a fresh one on a grid of the same size, as
    /// `reset_with_rng` does, with a generator seeded from the calling
    /// thread's.
    pub fn reset(&mut self)
        ensures
            final(self)@.restart_of(old(self)@),
    {
        let mut rng = Self::thread_seeded();
        self.reset_with_rng(&mut rng);
    }

    /// Serves one message of the host: a directional message is carried out
    /// as its command, `Reset` replaces the game by a fresh one, whether the
    /// game is over or not. Returns whether the maze was replaced, so that a
    /// host which keeps the painted maze knows when to paint it anew.
    pub fn update(&mut self, message: Message) -> (maze_replaced: bool)
        ensures
            maze_replaced == (message == Message::Reset),
            final(self)@.wf(),
            message.action() matches Some(action) ==> final(self)@ == old(self)@.step(action),
            message == Message::Reset ==> final(self)@.restart_of(old(self)@),
    {
        match message.action() {
            Some(action) => {
                self.apply_action(action);
                false
            },
            None => {
                self.reset();
                true
            },
        }
    }

    /// The cells that the player sees: up to `VIEW_DISTANCE` cells ahead in
    /// the facing direction, nearest first, ending before the grid's edge
    /// and before the first wall. The game is not changed, and a finished
    /// game is seen like a running one.
    pub fn get_player_view(&self) -> (view: Vec<Position>)
        ensures
            view@ == self@.visible(),
            view@.len() <= VIEW_DISTANCE,
            forall|i: int|
                0 <= i < view@.len() ==> {
                    &&& self@.holds(#[trigger] view@[i])
                    &&& self@.tile(view@[i].x as int, view@[i].y as int).is_walkable()
                    &&& view@[i].x == self@.ahead(i + 1).0
                    &&& view@[i].y == self@.ahead(i + 1).1
                },
    {
        proof {
            use_type_invariant(self);
        }
        let direction = self.player.direction;
        let mut view: Vec<Position> = Vec::new();
        let mut current = self.player.position;
        let mut blocked = false;
        while !blocked && view.len() < VIEW_DISTANCE
            invariant
                self@.wf(),
                direction == self@.player.direction,
                view@.len() <= VIEW_DISTANCE,
                self@.holds(current),
                current.x == self@.ahead(view@.len() as int).0,
                current.y == self@.ahead(view@.len() as int).1,
                blocked ==> !self@.clear_ahead(view@.len() as int + 1),
                forall|steps: int|
                    1 <= steps <= view@.len() ==> #[trigger] self@.clear_ahead(steps),
                forall|i: int|
                    0 <= i < view@.len() ==> (#[trigger] view@[i]) == self@.position_ahead(i + 1),
            decreases (if blocked { 0int } else { 1int }) + VIEW_DISTANCE - view@.len(),
        {
            match self.neighbor(current, direction) {
                Some(next) => {
                    if self.kind_at(next).is_walkable() {
                        view.push(next);
                        current = next;
                    } else {
                        blocked = true;
                    }
                },
                None => {
                    blocked = true;
                },
            }
        }
        assert(view@ =~= self@.visible());
        view
    }
}

} // verus!
