use logic::{Action, Direction, GameState, Message, Player, Position, Tile, TileType};
use rand::rngs::StdRng;
use rand::SeedableRng;

fn open_grid(width: usize, height: usize, walls: &[(usize, usize)]) -> Vec<Vec<Tile>> {
    let mut tiles = Vec::new();
    for x in 0..width {
        let mut column = Vec::new();
        for y in 0..height {
            let tile_type = if walls.contains(&(x, y)) {
                TileType::Wall
            } else {
                TileType::Walkable
            };
            column.push(Tile { tile_type });
        }
        tiles.push(column);
    }
    tiles
}

fn game(
    width: usize,
    height: usize,
    walls: &[(usize, usize)],
    player: (usize, usize),
    direction: Direction,
    goal: (usize, usize),
) -> GameState {
    GameState::from_parts(
        open_grid(width, height, walls),
        Player { position: Position { x: player.0, y: player.1 }, direction },
        Position { x: goal.0, y: goal.1 },
    )
    .unwrap()
}

fn snapshot(state: &GameState) -> (Player, Position, bool, u64, Vec<TileType>) {
    let mut kinds = Vec::new();
    for x in 0..state.width() {
        for y in 0..state.height() {
            kinds.push(state.tile_type(x, y).unwrap());
        }
    }
    (state.player(), state.goal(), state.game_over(), state.version(), kinds)
}

#[test]
fn actions_name_their_directions() {
    assert_eq!(Action::Up.direction(), Direction::Up);
    assert_eq!(Action::Down.direction(), Direction::Down);
    assert_eq!(Action::Left.direction(), Direction::Left);
    assert_eq!(Action::Right.direction(), Direction::Right);
}

#[test]
fn messages_carry_their_actions() {
    assert_eq!(Message::Reset.action(), None);
    assert_eq!(Message::Up.action(), Some(Action::Up));
    assert_eq!(Message::Down.action(), Some(Action::Down));
    assert_eq!(Message::Left.action(), Some(Action::Left));
    assert_eq!(Message::Right.action(), Some(Action::Right));
}

#[test]
fn first_command_turns_second_moves() {
    let mut state = game(3, 3, &[], (1, 1), Direction::Up, (2, 2));
    state.apply_action(Action::Down);
    assert_eq!(state.player().direction, Direction::Down);
    assert_eq!(state.player().position, Position { x: 1, y: 1 });
    assert_eq!(state.version(), 1);
    state.apply_action(Action::Down);
    assert_eq!(state.player().direction, Direction::Down);
    assert_eq!(state.player().position, Position { x: 1, y: 2 });
    assert_eq!(state.version(), 2);
    assert!(!state.game_over());
}

#[test]
fn turn_happens_even_toward_a_wall_or_an_edge() {
    let mut state = game(3, 3, &[(1, 0)], (0, 0), Direction::Down, (2, 2));
    state.apply_action(Action::Right);
    assert_eq!(state.player(), Player { position: Position { x: 0, y: 0 }, direction: Direction::Right });
    state.apply_action(Action::Up);
    assert_eq!(state.player(), Player { position: Position { x: 0, y: 0 }, direction: Direction::Up });
    state.apply_action(Action::Left);
    assert_eq!(state.player(), Player { position: Position { x: 0, y: 0 }, direction: Direction::Left });
    assert_eq!(state.version(), 3);
}

#[test]
fn each_direction_moves_one_cell_its_way() {
    let mut state = game(5, 5, &[], (2, 2), Direction::Up, (4, 4));
    state.apply_action(Action::Up);
    assert_eq!(state.player().position, Position { x: 2, y: 1 });
    state.apply_action(Action::Right);
    state.apply_action(Action::Right);
    assert_eq!(state.player().position, Position { x: 3, y: 1 });
    state.apply_action(Action::Down);
    state.apply_action(Action::Down);
    assert_eq!(state.player().position, Position { x: 3, y: 2 });
    state.apply_action(Action::Left);
    state.apply_action(Action::Left);
    assert_eq!(state.player().position, Position { x: 2, y: 2 });
    assert_eq!(state.version(), 7);
}

#[test]
fn wall_ahead_blocks_every_repeat() {
    let mut state = game(3, 3, &[(2, 1)], (1, 1), Direction::Right, (2, 2));
    let before = snapshot(&state);
    for _ in 0..10 {
        state.apply_action(Action::Right);
        assert_eq!(snapshot(&state), before);
    }
}

#[test]
fn left_edge_blocks_without_underflow() {
    let mut state = game(3, 3, &[], (0, 1), Direction::Left, (2, 2));
    let before = snapshot(&state);
    for _ in 0..5 {
        state.apply_action(Action::Left);
        assert_eq!(snapshot(&state), before);
    }
    assert_eq!(state.player().position.x, 0);
}

#[test]
fn top_edge_blocks() {
    let mut state = game(3, 3, &[], (1, 0), Direction::Up, (2, 2));
    let before = snapshot(&state);
    state.apply_action(Action::Up);
    assert_eq!(snapshot(&state), before);
}

#[test]
fn right_edge_blocks() {
    let mut state = game(3, 3, &[], (2, 1), Direction::Right, (0, 0));
    let before = snapshot(&state);
    state.apply_action(Action::Right);
    assert_eq!(snapshot(&state), before);
}

#[test]
fn bottom_edge_blocks() {
    let mut state = game(3, 3, &[], (1, 2), Direction::Down, (0, 0));
    let before = snapshot(&state);
    state.apply_action(Action::Down);
    assert_eq!(snapshot(&state), before);
}

#[test]
fn player_on_a_wall_can_walk_off_it() {
    let mut state = game(3, 1, &[(0, 0)], (0, 0), Direction::Right, (2, 0));
    state.apply_action(Action::Right);
    assert_eq!(state.player().position, Position { x: 1, y: 0 });
    state.apply_action(Action::Left);
    state.apply_action(Action::Left);
    assert_eq!(state.player().position, Position { x: 1, y: 0 });
    assert_eq!(state.player().direction, Direction::Left);
}

#[test]
fn stepping_onto_the_goal_ends_the_game() {
    let mut state = game(3, 3, &[], (1, 2), Direction::Right, (2, 2));
    state.apply_action(Action::Right);
    assert_eq!(state.player().position, Position { x: 2, y: 2 });
    assert!(state.game_over());
    assert_eq!(state.version(), 1);
}

#[test]
fn finished_game_ignores_every_action() {
    let mut state = game(3, 3, &[], (1, 2), Direction::Right, (2, 2));
    state.apply_action(Action::Right);
    let finished = snapshot(&state);
    for action in [Action::Up, Action::Down, Action::Left, Action::Right, Action::Left] {
        state.apply_action(action);
        assert_eq!(snapshot(&state), finished);
    }
    assert_eq!(state.player().direction, Direction::Right);
}

#[test]
fn goal_under_a_former_wall_can_be_entered() {
    let mut state = game(2, 1, &[(1, 0)], (0, 0), Direction::Right, (1, 0));
    state.apply_action(Action::Right);
    assert!(state.game_over());
    assert_eq!(state.player().position, Position { x: 1, y: 0 });
}

#[test]
fn blocked_by_wall_on_the_way_to_the_goal() {
    let mut state = game(3, 3, &[(2, 1)], (0, 1), Direction::Right, (2, 2));
    state.apply_action(Action::Right);
    assert_eq!(state.player().position, Position { x: 1, y: 1 });
    state.apply_action(Action::Right);
    assert_eq!(state.player().position, Position { x: 1, y: 1 });
    state.apply_action(Action::Right);
    assert_eq!(state.player().position, Position { x: 1, y: 1 });
    assert!(!state.game_over());
    assert_eq!(state.tile_type(2, 1), Ok(TileType::Wall));
    assert_eq!(state.version(), 1);
}

#[test]
fn same_walk_from_another_facing_needs_one_more_command() {
    let mut state = game(3, 3, &[(2, 1)], (0, 1), Direction::Up, (2, 2));
    state.apply_action(Action::Right);
    assert_eq!(state.player().position, Position { x: 0, y: 1 });
    assert_eq!(state.player().direction, Direction::Right);
    state.apply_action(Action::Right);
    assert_eq!(state.player().position, Position { x: 1, y: 1 });
    state.apply_action(Action::Right);
    assert_eq!(state.player().position, Position { x: 1, y: 1 });
    assert!(!state.game_over());
}

#[test]
fn actions_never_change_grid_or_goal() {
    let mut state = game(4, 3, &[(1, 1), (3, 0)], (0, 0), Direction::Up, (3, 2));
    let (_, goal, _, _, kinds) = snapshot(&state);
    let actions = [
        Action::Down, Action::Down, Action::Down, Action::Right, Action::Right, Action::Right,
        Action::Up, Action::Up, Action::Left, Action::Left,
    ];
    for action in actions {
        state.apply_action(action);
        let (player, now_goal, _, _, now_kinds) = snapshot(&state);
        assert_eq!(now_goal, goal);
        assert_eq!(now_kinds, kinds);
        assert!(player.position.x < 4);
        assert!(player.position.y < 3);
    }
}

#[test]
fn random_walk_keeps_the_player_inside_and_one_goal() {
    let mut rng = StdRng::seed_from_u64(11);
    let mut state = GameState::with_rng(6, 5, &mut rng).unwrap();
    let actions = [Action::Up, Action::Left, Action::Down, Action::Right];
    for step in 0..400usize {
        state.apply_action(actions[(step * 7 + step / 3) % 4]);
        let position = state.player().position;
        assert!(position.x < 6);
        assert!(position.y < 5);
        assert_eq!(state.game_over(), position == state.goal());
        let mut goals = 0;
        for x in 0..6 {
            for y in 0..5 {
                if state.tile_type(x, y) == Ok(TileType::Goal) {
                    goals += 1;
                }
            }
        }
        assert_eq!(goals, 1);
    }
}

#[test]
fn version_counts_changes_only() {
    let mut state = game(3, 1, &[], (0, 0), Direction::Up, (2, 0));
    assert_eq!(state.version(), 0);
    state.apply_action(Action::Up);
    assert_eq!(state.version(), 0);
    state.apply_action(Action::Right);
    assert_eq!(state.version(), 1);
    state.apply_action(Action::Right);
    assert_eq!(state.version(), 2);
    state.apply_action(Action::Right);
    assert_eq!(state.version(), 3);
    assert!(state.game_over());
    state.apply_action(Action::Left);
    assert_eq!(state.version(), 3);
}

#[test]
fn reset_keeps_the_size_and_restarts() {
    let mut state = game(4, 3, &[], (0, 0), Direction::Right, (1, 0));
    state.apply_action(Action::Right);
    assert!(state.game_over());
    let version = state.version();
    state.reset();
    assert_eq!(state.width(), 4);
    assert_eq!(state.height(), 3);
    assert!(!state.game_over());
    assert_eq!(state.player().direction, Direction::Up);
    assert_ne!(state.goal(), state.player().position);
    assert_eq!(state.version(), version + 1);
}

#[test]
fn reset_twice_in_a_row_keeps_the_size() {
    let mut state = GameState::new(5, 2).unwrap();
    state.reset();
    state.reset();
    assert_eq!(state.width(), 5);
    assert_eq!(state.height(), 2);
    assert!(!state.game_over());
    assert_eq!(state.version(), 2);
    assert!(state.player().position.x < 5);
    assert!(state.player().position.y < 2);
    assert_eq!(state.tile_type(state.goal().x, state.goal().y), Ok(TileType::Goal));
}

#[test]
fn reset_rerolls_the_game() {
    let mut state = GameState::new(20, 20).unwrap();
    let mut changed = false;
    for _ in 0..5 {
        let before = snapshot(&state);
        state.reset();
        let after = snapshot(&state);
        if before.0 != after.0 || before.1 != after.1 || before.4 != after.4 {
            changed = true;
        }
    }
    assert!(changed);
}

#[test]
fn reset_with_the_same_seed_gives_the_same_game() {
    let mut first = game(6, 4, &[], (0, 0), Direction::Right, (5, 3));
    let mut second = game(6, 4, &[], (0, 0), Direction::Right, (5, 3));
    first.reset_with_rng(&mut StdRng::seed_from_u64(5));
    second.reset_with_rng(&mut StdRng::seed_from_u64(5));
    assert_eq!(snapshot(&first), snapshot(&second));
    assert_eq!(first.version(), 1);
}

#[test]
fn update_carries_out_directional_messages() {
    let mut state = game(3, 3, &[], (1, 1), Direction::Up, (2, 2));
    assert!(!state.update(Message::Left));
    assert_eq!(state.player().direction, Direction::Left);
    assert!(!state.update(Message::Left));
    assert_eq!(state.player().position, Position { x: 0, y: 1 });
    assert!(!state.update(Message::Down));
    assert!(!state.update(Message::Down));
    assert_eq!(state.player().position, Position { x: 0, y: 2 });
    assert!(!state.update(Message::Right));
    assert!(!state.update(Message::Up));
    assert!(!state.update(Message::Up));
    assert_eq!(state.player().position, Position { x: 0, y: 1 });
}

#[test]
fn update_resets_a_finished_game() {
    let mut state = game(3, 3, &[], (1, 2), Direction::Right, (2, 2));
    assert!(!state.update(Message::Right));
    assert!(state.game_over());
    assert!(state.update(Message::Reset));
    assert!(!state.game_over());
    assert_eq!(state.width(), 3);
    assert_eq!(state.height(), 3);
    assert_eq!(state.player().direction, Direction::Up);
    assert_eq!(state.version(), 2);
}
