use tetris::board::{clear_full_rows, is_row_full, new_empty_row};
use tetris::game::{GameState, Input, DROP_INTERVAL_MS, MOVE_INTERVAL_MS};
use tetris::piece::{Block, Shape, Tetromino, GRID_HEIGHT, GRID_WIDTH};

const NO_KEYS: Input = Input { left: false, right: false, down: false, up: false };

fn positions(g: &GameState) -> Vec<(i32, i32)> {
    g.tetromino.blocks.iter().map(|b| (b.x, b.y)).collect()
}

fn fill_row(g: &mut GameState, y: usize) {
    for x in 0..GRID_WIDTH as usize {
        g.grid[y][x] = Some(Shape::I);
    }
}

fn row_is_empty(g: &GameState, y: usize) -> bool {
    g.grid[y].iter().all(|c| c.is_none())
}

fn in_bounds(g: &GameState) -> bool {
    g.grid.len() == GRID_HEIGHT as usize
        && g.grid.iter().all(|r| r.len() == GRID_WIDTH as usize)
        && g.tetromino.blocks.len() == 4
        && g.tetromino.blocks.iter().all(|b| 0 <= b.x && b.x < GRID_WIDTH && b.y < GRID_HEIGHT)
}

#[test]
fn spawn_positions_match_catalogue() {
    let t = Tetromino::spawn(Shape::I);
    let p: Vec<(i32, i32)> = t.blocks.iter().map(|b| (b.x, b.y)).collect();
    assert_eq!(p, vec![(3, 0), (4, 0), (5, 0), (6, 0)]);
    let t = Tetromino::spawn(Shape::J);
    let p: Vec<(i32, i32)> = t.blocks.iter().map(|b| (b.x, b.y)).collect();
    assert_eq!(p, vec![(5, 0), (3, 1), (4, 1), (5, 1)]);
    assert!(t.blocks.iter().all(|b| b.color == Shape::J));
    assert_eq!(Shape::from_index(0), Shape::I);
    assert_eq!(Shape::from_index(1), Shape::O);
    assert_eq!(Shape::from_index(6), Shape::Z);
}

#[test]
fn random_draws_cover_all_shapes() {
    let mut seen = [false; 7];
    for _ in 0..500 {
        let s = Shape::random();
        let i = [Shape::I, Shape::O, Shape::L, Shape::J, Shape::T, Shape::S, Shape::Z]
            .iter()
            .position(|k| *k == s)
            .unwrap();
        seen[i] = true;
        let t = Tetromino::create_random_tetromino();
        assert_eq!(t.blocks, Tetromino::spawn(t.shape).blocks);
    }
    assert!(seen.iter().all(|b| *b));
}

#[test]
fn new_game_is_empty() {
    let g = GameState::new();
    assert!(in_bounds(&g));
    assert!((0..GRID_HEIGHT as usize).all(|y| row_is_empty(&g, y)));
    assert_eq!(g.score, 0);
    assert!(!g.game_over);
    assert_eq!(g.tetromino.blocks, Tetromino::spawn(g.tetromino.shape).blocks);
}

#[test]
fn move_translates_whole_piece() {
    let mut g = GameState::with_tetromino(Shape::T);
    g.move_tetromino(-3, 0);
    assert_eq!(positions(&g), vec![(1, 0), (0, 1), (1, 1), (2, 1)]);
    g.move_tetromino(0, 5);
    assert_eq!(positions(&g), vec![(1, 5), (0, 6), (1, 6), (2, 6)]);
}

#[test]
fn blocked_move_leaves_piece_unchanged() {
    let mut g = GameState::with_tetromino(Shape::I);
    g.move_tetromino(-4, 0);
    assert_eq!(positions(&g), vec![(3, 0), (4, 0), (5, 0), (6, 0)]);
    g.move_tetromino(4, 0);
    assert_eq!(positions(&g), vec![(3, 0), (4, 0), (5, 0), (6, 0)]);
    g.grid[0][7] = Some(Shape::Z);
    g.move_tetromino(1, 0);
    assert_eq!(positions(&g), vec![(3, 0), (4, 0), (5, 0), (6, 0)]);
    assert_eq!(g.grid[0][3], None);
    g.move_tetromino(0, -1);
    assert_eq!(positions(&g), vec![(3, -1), (4, -1), (5, -1), (6, -1)]);
}

#[test]
fn blocked_fall_locks_and_spawns() {
    let mut g = GameState::with_tetromino(Shape::O);
    g.move_tetromino(0, 3);
    g.grid[5][5] = Some(Shape::T);
    g.move_tetromino(0, 1);
    for (x, y) in [(4, 3), (5, 3), (4, 4), (5, 4)] {
        assert_eq!(g.grid[y][x], Some(Shape::O));
    }
    assert_eq!(g.tetromino.blocks, Tetromino::spawn(g.tetromino.shape).blocks);
    assert!(!g.game_over);
    assert_eq!(g.score, 0);
}

#[test]
fn landing_on_floor_locks() {
    let mut g = GameState::with_tetromino(Shape::I);
    g.move_tetromino(0, 19);
    assert_eq!(positions(&g), vec![(3, 19), (4, 19), (5, 19), (6, 19)]);
    g.move_tetromino(0, 1);
    for x in 3..7 {
        assert_eq!(g.grid[19][x], Some(Shape::I));
    }
}

#[test]
fn single_line_clear_scores_100() {
    let mut g = GameState::with_tetromino(Shape::O);
    fill_row(&mut g, 19);
    g.grid[18][0] = Some(Shape::L);
    g.freeze_tetromino_with(Shape::T);
    assert_eq!(g.score, 100);
    assert!(row_is_empty(&g, 0));
    assert_eq!(g.grid[19][0], Some(Shape::L));
    assert!(!is_row_full(&g.grid[19]));
    for (x, y) in [(4, 1), (5, 1), (4, 2), (5, 2)] {
        assert_eq!(g.grid[y][x], Some(Shape::O));
    }
    assert_eq!(g.tetromino.shape, Shape::T);
    assert_eq!(g.tetromino.blocks, Tetromino::spawn(Shape::T).blocks);
}

#[test]
fn four_line_clear_scores_800() {
    let mut g = GameState::with_tetromino(Shape::I);
    for y in 16..20 {
        fill_row(&mut g, y);
    }
    g.grid[15][9] = Some(Shape::S);
    g.freeze_tetromino_with(Shape::O);
    assert_eq!(g.score, 800);
    assert_eq!(g.grid[19][9], Some(Shape::S));
    for x in 3..7 {
        assert_eq!(g.grid[4][x], Some(Shape::I));
    }
    for y in 0..4 {
        assert!(row_is_empty(&g, y));
    }
}

#[test]
fn score_table() {
    for (rows, points) in [(0usize, 0u64), (1, 100), (2, 300), (3, 500), (4, 800), (5, 800)] {
        let mut g = GameState::with_tetromino(Shape::I);
        for y in 0..rows {
            fill_row(&mut g, 19 - 2 * y);
        }
        g.score = 7;
        g.clear_lines();
        assert_eq!(g.score, 7 + points);
        for y in 0..rows {
            assert!(row_is_empty(&g, y));
        }
    }
}

#[test]
fn separated_full_rows_cleared_in_one_pass() {
    let mut grid: Vec<Vec<Option<Shape>>> = (0..20).map(|_| new_empty_row()).collect();
    for y in [19usize, 17] {
        for x in 0..10 {
            grid[y][x] = Some(Shape::J);
        }
    }
    grid[18][2] = Some(Shape::Z);
    grid[16][7] = Some(Shape::T);
    let n = clear_full_rows(&mut grid);
    assert_eq!(n, 2);
    assert_eq!(grid[19][2], Some(Shape::Z));
    assert_eq!(grid[18][7], Some(Shape::T));
    assert_eq!(grid.iter().flatten().filter(|c| c.is_some()).count(), 2);
}

#[test]
fn score_saturates() {
    let mut g = GameState::with_tetromino(Shape::I);
    fill_row(&mut g, 19);
    g.score = u64::MAX - 10;
    g.clear_lines();
    assert_eq!(g.score, u64::MAX);
}

#[test]
fn square_never_rotates() {
    let mut g = GameState::with_tetromino(Shape::O);
    let before = positions(&g);
    g.rotate_tetromino();
    assert_eq!(positions(&g), before);
    g.grid[2][4] = Some(Shape::I);
    g.rotate_tetromino();
    assert_eq!(positions(&g), before);
}

#[test]
fn rotation_turns_about_second_block() {
    let mut g = GameState::with_tetromino(Shape::I);
    g.move_tetromino(0, 2);
    g.rotate_tetromino();
    assert_eq!(positions(&g), vec![(4, 1), (4, 2), (4, 3), (4, 4)]);
    let mut g = GameState::with_tetromino(Shape::T);
    g.move_tetromino(0, 3);
    g.rotate_tetromino();
    assert_eq!(positions(&g), vec![(4, 5), (3, 4), (3, 5), (3, 6)]);
}

#[test]
fn rotation_rejected_on_obstacle_wall_or_floor() {
    let mut g = GameState::with_tetromino(Shape::I);
    g.move_tetromino(0, 2);
    g.grid[4][4] = Some(Shape::S);
    let before = positions(&g);
    g.rotate_tetromino();
    assert_eq!(positions(&g), before);

    let mut g = GameState::with_tetromino(Shape::I);
    g.move_tetromino(0, 18);
    let before = positions(&g);
    g.rotate_tetromino();
    assert_eq!(positions(&g), before);

    let mut g = GameState::with_tetromino(Shape::I);
    g.move_tetromino(0, 5);
    g.rotate_tetromino();
    g.move_tetromino(-4, 0);
    assert_eq!(positions(&g)[0].0, 0);
    let before = positions(&g);
    g.rotate_tetromino();
    assert_eq!(positions(&g), before);
}

#[test]
fn rotation_can_lift_blocks_above_grid() {
    let mut g = GameState::with_tetromino(Shape::I);
    g.rotate_tetromino();
    assert_eq!(positions(&g), vec![(4, -1), (4, 0), (4, 1), (4, 2)]);
}

#[test]
fn locking_above_grid_ends_game() {
    let mut g = GameState::with_tetromino(Shape::I);
    g.rotate_tetromino();
    g.freeze_tetromino_with(Shape::T);
    assert!(g.game_over);
    assert_eq!(g.tetromino.shape, Shape::I);
    assert_eq!(g.grid[0][4], None);
    assert_eq!(g.score, 0);
}

#[test]
fn partial_lock_writes_blocks_before_the_one_above() {
    let mut g = GameState::with_tetromino(Shape::L);
    g.tetromino.blocks = vec![
        Block { x: 0, y: 3, color: Shape::L },
        Block { x: 1, y: 3, color: Shape::L },
        Block { x: 1, y: -1, color: Shape::L },
        Block { x: 2, y: 3, color: Shape::L },
    ];
    g.freeze_tetromino_with(Shape::O);
    assert!(g.game_over);
    assert_eq!(g.grid[3][0], Some(Shape::L));
    assert_eq!(g.grid[3][1], Some(Shape::L));
    assert_eq!(g.grid[3][2], None);
}

#[test]
fn game_over_update_is_noop() {
    let mut g = GameState::with_tetromino(Shape::I);
    g.rotate_tetromino();
    g.freeze_tetromino_with(Shape::T);
    assert!(g.game_over);
    let blocks = g.tetromino.blocks.clone();
    let grid = g.grid.clone();
    let keys = Input { left: true, right: true, down: true, up: true };
    for t in [1000u64, 2000, 5000] {
        g.update(t, keys);
        assert!(g.game_over);
        assert_eq!(g.tetromino.blocks, blocks);
        assert_eq!(g.grid, grid);
        assert_eq!(g.score, 0);
        assert_eq!(g.last_move_time, 0);
        assert_eq!(g.last_drop_time, 0);
    }
}

#[test]
fn gates_fire_independently() {
    let mut g = GameState::with_tetromino(Shape::T);
    let keys = Input { left: true, right: false, down: false, up: true };
    g.update(MOVE_INTERVAL_MS, keys);
    assert_eq!(g.last_move_time, 100);
    assert_eq!(g.last_rotate_time, 100);
    assert_eq!(g.last_drop_time, 0);
    let after_first = positions(&g);
    g.update(150, keys);
    assert_eq!(positions(&g), after_first);
    assert_eq!(g.last_move_time, 100);
    assert_eq!(g.last_rotate_time, 100);
    g.update(200, Input { left: false, right: false, down: false, up: true });
    assert_eq!(g.last_rotate_time, 200);
    assert_eq!(g.last_move_time, 100);
    g.update(250, Input { left: true, right: false, down: false, up: false });
    assert_eq!(g.last_move_time, 250);
    assert_eq!(g.last_rotate_time, 200);
    g.update(300, Input { left: true, right: false, down: false, up: true });
    assert_eq!(g.last_move_time, 250);
    assert_eq!(g.last_rotate_time, 300);
    g.update(DROP_INTERVAL_MS, NO_KEYS);
    assert_eq!(g.last_drop_time, 500);
    assert_eq!(g.last_move_time, 250);
}

#[test]
fn horizontal_move_blocks_soft_drop_in_same_update() {
    let mut g = GameState::with_tetromino(Shape::T);
    g.update(100, Input { left: true, right: false, down: true, up: false });
    assert_eq!(positions(&g), vec![(3, 0), (2, 1), (3, 1), (4, 1)]);
    let mut g = GameState::with_tetromino(Shape::T);
    g.update(100, Input { left: false, right: false, down: true, up: false });
    assert_eq!(positions(&g), vec![(4, 1), (3, 2), (4, 2), (5, 2)]);
}

#[test]
fn automatic_drop_every_interval() {
    let mut g = GameState::with_tetromino(Shape::I);
    g.update(499, NO_KEYS);
    assert_eq!(positions(&g)[0], (3, 0));
    g.update(500, NO_KEYS);
    assert_eq!(positions(&g)[0], (3, 1));
    g.update(999, NO_KEYS);
    assert_eq!(positions(&g)[0], (3, 1));
    g.update(1000, NO_KEYS);
    assert_eq!(positions(&g)[0], (3, 2));
}

#[test]
fn long_play_stays_in_bounds() {
    let mut g = GameState::new();
    let mut score = 0;
    for step in 0u64..4000 {
        let keys = Input {
            left: step % 3 == 0,
            right: step % 5 == 0,
            down: step % 2 == 0,
            up: step % 7 == 0,
        };
        g.update(step * 50, keys);
        assert!(in_bounds(&g));
        assert!(g.score >= score);
        score = g.score;
    }
}

#[test]
fn frozen_blocks_lists_locked_cells_in_order() {
    let mut g = GameState::with_tetromino(Shape::I);
    assert!(g.frozen_blocks().is_empty());
    g.grid[19][9] = Some(Shape::Z);
    g.grid[3][5] = Some(Shape::L);
    g.grid[19][0] = Some(Shape::T);
    let cells: Vec<(i32, i32, Shape)> = g.frozen_blocks().iter().map(|b| (b.x, b.y, b.color)).collect();
    assert_eq!(cells, vec![(5, 3, Shape::L), (0, 19, Shape::T), (9, 19, Shape::Z)]);
}
