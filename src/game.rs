//! The game engine: the active piece over the grid, moves, rotation, locking,
//! scoring and the timed update cycle.

use vstd::prelude::*;
use crate::piece::{Shape, Block, Tetromino, spawn_blocks, blocks_wf, GRID_WIDTH, GRID_HEIGHT, MIN_ROW};
use crate::board::{Row, rows_of, grid_wf, empty_rows, new_empty_row, cleared, full_count, award, clear_full_rows};

verus! {

/// Minimum time between two horizontal moves, soft drops or rotations, in milliseconds.
pub const MOVE_INTERVAL_MS: u64 = 100;

/// Time between two automatic drops, in milliseconds.
pub const DROP_INTERVAL_MS: u64 = 500;

/// The keys held at one update.
#[derive(Clone, Copy, PartialEq, Eq, Structural, Debug)]
pub struct Input {
    pub left: bool,
    pub right: bool,
    pub down: bool,
    pub up: bool,
}

/// The engine: active piece, grid of locked cells, score, game-over flag and the
/// time each gated action last fired (milliseconds since start).
pub struct GameState {
    pub tetromino: Tetromino,
    pub grid: Vec<Vec<Option<Shape>>>,
    pub game_over: bool,
    pub score: u64,
    pub last_move_time: u64,
    pub last_drop_time: u64,
    pub last_rotate_time: u64,
}

/// The engine's state as values.
pub struct GameModel {
    pub blocks: Seq<Block>,
    pub shape: Shape,
    pub grid: Seq<Row>,
    pub game_over: bool,
    pub score: int,
    pub last_move: int,
    pub last_drop: int,
    pub last_rotate: int,
}

impl View for GameState {
    type V = GameModel;

    open spec fn view(&self) -> GameModel {
        GameModel {
            blocks: self.tetromino.blocks@,
            shape: self.tetromino.shape,
            grid: rows_of(self.grid@),
            game_over: self.game_over,
            score: self.score as int,
            last_move: self.last_move_time as int,
            last_drop: self.last_drop_time as int,
            last_rotate: self.last_rotate_time as int,
        }
    }
}

/// A block may stand at `(x, y)`: inside the columns, above the floor, and on an
/// empty cell unless it is above the visible grid.
pub open spec fn placeable(g: Seq<Row>, x: int, y: int) -> bool {
    &&& 0 <= x < GRID_WIDTH
    &&& y < GRID_HEIGHT
    &&& y >= 0 ==> g[y][x] is None
}

/// Every block of the piece may stand `dx` columns and `dy` rows away.
pub open spec fn can_move(s: GameModel, dx: int, dy: int) -> bool {
    forall|i: int|
        0 <= i < s.blocks.len() ==> placeable(s.grid, #[trigger] s.blocks[i].x + dx, s.blocks[i].y + dy)
}

pub open spec fn shifted(b: Block, dx: int, dy: int) -> Block {
    Block { x: (b.x + dx) as i32, y: (b.y + dy) as i32, color: b.color }
}

pub open spec fn translated(bs: Seq<Block>, dx: int, dy: int) -> Seq<Block> {
    bs.map_values(|b: Block| shifted(b, dx, dy))
}

/// Column of `b` after a quarter turn clockwise about `p`.
pub open spec fn turned_x(b: Block, p: Block) -> int {
    p.x - (b.y - p.y)
}

/// Row of `b` after a quarter turn clockwise about `p`.
pub open spec fn turned_y(b: Block, p: Block) -> int {
    p.y + (b.x - p.x)
}

/// The blocks turned a quarter clockwise about the second block.
pub open spec fn rotated(bs: Seq<Block>) -> Seq<Block> {
    bs.map_values(|b: Block| Block { x: turned_x(b, bs[1]) as i32, y: turned_y(b, bs[1]) as i32, color: b.color })
}

/// Every block may stand where the quarter turn takes it.
pub open spec fn can_rotate(s: GameModel) -> bool {
    forall|i: int|
        0 <= i < s.blocks.len() ==> placeable(
            s.grid,
            turned_x(#[trigger] s.blocks[i], s.blocks[1]),
            turned_y(s.blocks[i], s.blocks[1]),
        )
}

/// Rotation: the square never turns, and a turn that any block cannot take is refused whole.
#[verifier::opaque]
pub open spec fn rotate_model(s: GameModel) -> GameModel {
    if s.shape == Shape::O || !can_rotate(s) {
        s
    } else {
        GameModel { blocks: rotated(s.blocks), ..s }
    }
}

/// Writes the blocks into the grid in order, stopping at the first block above the
/// grid; the flag says whether one was met.
pub open spec fn lock_cells(g: Seq<Row>, bs: Seq<Block>) -> (Seq<Row>, bool)
    decreases bs.len(),
{
    if bs.len() == 0 {
        (g, false)
    } else if bs[0].y < 0 {
        (g, true)
    } else {
        lock_cells(
            g.update(bs[0].y as int, g[bs[0].y as int].update(bs[0].x as int, Some(bs[0].color))),
            bs.drop_first(),
        )
    }
}

/// `u64` addition that stops at the largest value.
pub open spec fn capped(n: int) -> int {
    if n > u64::MAX {
        u64::MAX as int
    } else {
        n
    }
}

/// Locking: the blocks enter the grid; a block above the grid ends the game at once.
/// Otherwise full rows are cleared, points awarded, and a piece of shape `next` spawns.
#[verifier::opaque]
pub open spec fn freeze_model(s: GameModel, next: Shape) -> GameModel {
    let (g, over) = lock_cells(s.grid, s.blocks);
    if over {
        GameModel { grid: g, game_over: true, ..s }
    } else {
        GameModel {
            grid: cleared(g),
            score: capped(s.score + award(full_count(g))),
            blocks: spawn_blocks(next),
            shape: next,
            ..s
        }
    }
}

/// A move by `(dx, dy)`: whole or not at all; a refused downward move locks the piece.
#[verifier::opaque]
pub open spec fn move_model(s: GameModel, dx: int, dy: int, next: Shape) -> GameModel {
    if can_move(s, dx, dy) {
        GameModel { blocks: translated(s.blocks, dx, dy), ..s }
    } else if dy > 0 {
        freeze_model(s, next)
    } else {
        s
    }
}

/// The same state with its timers as they were in `t`.
pub open spec fn times_of(s: GameModel, t: GameModel) -> GameModel {
    GameModel { last_move: t.last_move, last_drop: t.last_drop, last_rotate: t.last_rotate, ..s }
}

/// Left and right moves, both under the move gate as it stood before either fired.
pub open spec fn horizontal_stage(s: GameModel, now: int, inp: Input) -> GameModel {
    let move_gate = now - s.last_move >= MOVE_INTERVAL_MS;
    let a = if move_gate && inp.left {
        GameModel { last_move: now, ..times_of(move_model(s, -1, 0, s.shape), s) }
    } else {
        s
    };
    if move_gate && inp.right {
        GameModel { last_move: now, ..times_of(move_model(a, 1, 0, a.shape), a) }
    } else {
        a
    }
}

/// The soft drop, under the move gate; a lock spawns shape `k`.
pub open spec fn soft_drop_stage(s: GameModel, now: int, inp: Input, k: Shape) -> GameModel {
    if inp.down && now - s.last_move >= MOVE_INTERVAL_MS {
        GameModel { last_move: now, ..times_of(move_model(s, 0, 1, k), s) }
    } else {
        s
    }
}

/// Rotation, under its own gate.
pub open spec fn rotate_stage(s: GameModel, now: int, inp: Input) -> GameModel {
    if inp.up && now - s.last_rotate >= MOVE_INTERVAL_MS {
        GameModel { last_rotate: now, ..times_of(rotate_model(s), s) }
    } else {
        s
    }
}

/// The automatic drop, under the drop gate; a lock spawns shape `k`.
pub open spec fn auto_drop_stage(s: GameModel, now: int, k: Shape) -> GameModel {
    if now - s.last_drop >= DROP_INTERVAL_MS {
        GameModel { last_drop: now, ..times_of(move_model(s, 0, 1, k), s) }
    } else {
        s
    }
}

/// One update at time `now` with keys `inp`; a lock by the soft drop spawns shape
/// `k1`, one by the automatic drop shape `k2`. Nothing changes once the game is over.
pub open spec fn update_model(s: GameModel, now: int, inp: Input, k1: Shape, k2: Shape) -> GameModel {
    if s.game_over {
        s
    } else {
        auto_drop_stage(
            rotate_stage(soft_drop_stage(horizontal_stage(s, now, inp), now, inp, k1), now, inp),
            now,
            k2,
        )
    }
}

/// The block names a cell of the grid that holds its colour.
pub open spec fn cell_holds(g: Seq<Row>, b: Block) -> bool {
    &&& 0 <= b.y < GRID_HEIGHT
    &&& 0 <= b.x < GRID_WIDTH
    &&& g[b.y as int][b.x as int] == Some(b.color)
}

/// `a` comes strictly before `b` in row-major order.
pub open spec fn before(a: Block, b: Block) -> bool {
    a.y < b.y || (a.y == b.y && a.x < b.x)
}

impl GameState {
    pub open spec fn wf(&self) -> bool {
        &&& self.tetromino.wf()
        &&& grid_wf(rows_of(self.grid@))
    }

    /// The clock reading `now` is no earlier than any recorded firing time.
    pub open spec fn clock_ok(&self, now: u64) -> bool {
        &&& self.last_move_time <= now
        &&& self.last_drop_time <= now
        &&& self.last_rotate_time <= now
    }

    /// A fresh game with an empty grid and an active piece of shape `shape`.
    pub fn with_tetromino(shape: Shape) -> (r: GameState)
        ensures
            r.wf(),
            r@.grid == empty_rows(GRID_HEIGHT as nat),
            r@.blocks == spawn_blocks(shape),
            r@.shape == shape,
            !r@.game_over,
            r@.score == 0,
            r@.last_move == 0 && r@.last_drop == 0 && r@.last_rotate == 0,
    {
        let mut grid: Vec<Vec<Option<Shape>>> = Vec::new();
        let mut i: i32 = 0;
        while i < GRID_HEIGHT
            invariant
                0 <= i <= GRID_HEIGHT,
                grid@.len() == i,
                rows_of(grid@) == empty_rows(i as nat),
            decreases GRID_HEIGHT - i,
        {
            let row = new_empty_row();
            let ghost prev = grid@;
            grid.push(row);
            i += 1;
            assert forall|k: int| 0 <= k < i implies #[trigger] rows_of(grid@)[k] == empty_rows(i as nat)[k] by {
                if k < i - 1 {
                    assert(grid@[k] == prev[k]);
                    assert(rows_of(prev)[k] == empty_rows((i - 1) as nat)[k]);
                }
            }
            assert(rows_of(grid@) =~= empty_rows(i as nat));
        }
        GameState {
            tetromino: Tetromino::spawn(shape),
            grid,
            game_over: false,
            score: 0,
            last_move_time: 0,
            last_drop_time: 0,
            last_rotate_time: 0,
        }
    }

    /// A fresh game with an empty grid and a random active piece.
    pub fn new() -> (r: GameState)
        ensures
            r.wf(),
            r@.grid == empty_rows(GRID_HEIGHT as nat),
            r@.blocks == spawn_blocks(r@.shape),
            !r@.game_over,
            r@.score == 0,
            r@.last_move == 0 && r@.last_drop == 0 && r@.last_rotate == 0,
    {
        let t = Tetromino::create_random_tetromino();
        let mut r = GameState::with_tetromino(t.shape);
        r.tetromino = t;
        r
    }

    /// Whether a block may stand at `(x, y)`.
    fn placeable_at(&self, x: i64, y: i64) -> (r: bool)
        requires
            self.wf(),
        ensures
            r == placeable(self@.grid, x as int, y as int),
    {
        if x < 0 || x >= GRID_WIDTH as i64 || y >= GRID_HEIGHT as i64 {
            return false;
        }
        if y >= 0 {
            assert(self@.grid[y as int] == self.grid@[y as int]@);
            self.grid[y as usize][x as usize].is_none()
        } else {
            true
        }
    }

    /// Whether every block of the active piece may stand `dx` columns and `dy` rows away.
    pub fn can_move_by(&self, dx: i32, dy: i32) -> (r: bool)
        requires
            self.wf(),
        ensures
            r == can_move(self@, dx as int, dy as int),
    {
        let mut i: usize = 0;
        while i < self.tetromino.blocks.len()
            invariant
                self.wf(),
                0 <= i <= 4,
                forall|k: int| 0 <= k < i ==> placeable(self@.grid, #[trigger] self@.blocks[k].x + dx, self@.blocks[k].y + dy),
            decreases 4 - i,
        {
            let b = self.tetromino.blocks[i];
            if !self.placeable_at(b.x as i64 + dx as i64, b.y as i64 + dy as i64) {
                return false;
            }
            i += 1;
        }
        true
    }

    /// Moves the active piece by `dx` columns and `dy` rows if every block can follow;
    /// otherwise a downward move locks the piece where it stands, and any other move
    /// changes nothing. Above the grid no cell blocks a move; the pivot may still not
    /// be taken above row `MIN_ROW`, which keeps coordinates within `i32`.
    pub fn move_tetromino(&mut self, dx: i32, dy: i32)
        requires
            old(self).wf(),
            old(self).tetromino.blocks@[1].y + dy >= MIN_ROW,
        ensures
            final(self).wf(),
            final(self)@ == move_model(old(self)@, dx as int, dy as int, final(self)@.shape),
            can_move(old(self)@, dx as int, dy as int) ==> final(self)@.blocks == translated(old(self)@.blocks, dx as int, dy as int),
            !can_move(old(self)@, dx as int, dy as int) && dy <= 0 ==> final(self)@ == old(self)@,
            !can_move(old(self)@, dx as int, dy as int) && dy > 0 ==> final(self)@ == freeze_model(old(self)@, final(self)@.shape),
            times_of(final(self)@, old(self)@) == final(self)@,
            old(self).game_over ==> final(self).game_over,
            dy <= 0 ==> final(self)@.shape == old(self)@.shape,
    {
        reveal(move_model);
        if self.can_move_by(dx, dy) {
            let ghost bs0 = self.tetromino.blocks@;
            let mut i: usize = 0;
            while i < 4
                invariant
                    0 <= i <= 4,
                    blocks_wf(bs0),
                    can_move(old(self)@, dx as int, dy as int),
                    bs0 == old(self)@.blocks,
                    bs0[1].y + dy >= MIN_ROW,
                    self.tetromino.blocks@.len() == 4,
                    self.tetromino.shape == old(self).tetromino.shape,
                    self.grid == old(self).grid,
                    self.game_over == old(self).game_over,
                    self.score == old(self).score,
                    self.last_move_time == old(self).last_move_time,
                    self.last_drop_time == old(self).last_drop_time,
                    self.last_rotate_time == old(self).last_rotate_time,
                    forall|k: int| 0 <= k < i ==> self.tetromino.blocks@[k] == shifted(#[trigger] bs0[k], dx as int, dy as int),
                    forall|k: int| i <= k < 4 ==> self.tetromino.blocks@[k] == #[trigger] bs0[k],
                decreases 4 - i,
            {
                let b = self.tetromino.blocks[i];
                assert(placeable(old(self)@.grid, bs0[i as int].x + dx, bs0[i as int].y + dy));
                assert(bs0[i as int].y >= bs0[1].y - 9);
                self.tetromino.blocks[i] = Block { x: b.x + dx, y: b.y + dy, color: b.color };
                i += 1;
            }
            assert(self.tetromino.blocks@ =~= translated(bs0, dx as int, dy as int));
            assert(forall|k: int| 0 <= k < 4 ==> placeable(old(self)@.grid, #[trigger] bs0[k].x + dx, bs0[k].y + dy));
        } else if dy > 0 {
            self.freeze_tetromino();
        }
    }

    /// Turns the active piece a quarter clockwise about its second block, unless it is
    /// the square or a turned block could not stand where the turn takes it.
    pub fn rotate_tetromino(&mut self)
        requires
            old(self).wf(),
        ensures
            final(self).wf(),
            final(self)@ == rotate_model(old(self)@),
            old(self).tetromino.shape == Shape::O ==> final(self)@ == old(self)@,
            !can_rotate(old(self)@) ==> final(self)@ == old(self)@,
            times_of(final(self)@, old(self)@) == final(self)@,
            final(self).game_over == old(self).game_over,
    {
        reveal(rotate_model);
        if self.tetromino.shape == Shape::O {
            return;
        }
        let center = self.tetromino.blocks[1];
        let ghost bs0 = self.tetromino.blocks@;
        let mut new_blocks: Vec<Block> = Vec::new();
        let mut i: usize = 0;
        while i < 4
            invariant
                0 <= i <= 4,
                self.wf(),
                *self == *old(self),
                bs0 == self.tetromino.blocks@,
                center == bs0[1],
                new_blocks@.len() == i,
                forall|k: int| 0 <= k < i ==> placeable(self@.grid, turned_x(#[trigger] bs0[k], center), turned_y(bs0[k], center)),
                forall|k: int| 0 <= k < i ==> new_blocks@[k] == #[trigger] rotated(bs0)[k],
            decreases 4 - i,
        {
            let b = self.tetromino.blocks[i];
            let new_x: i64 = center.x as i64 - (b.y as i64 - center.y as i64);
            let new_y: i64 = center.y as i64 + (b.x as i64 - center.x as i64);
            if !self.placeable_at(new_x, new_y) {
                proof {
                    reveal(rotate_model);
                }
                return;
            }
            new_blocks.push(Block { x: new_x as i32, y: new_y as i32, color: b.color });
            i += 1;
        }
        assert(new_blocks@ =~= rotated(bs0));
        self.tetromino.blocks = new_blocks;
    }

    /// Clears every full row and adds the points for how many went; the score stops
    /// at `u64::MAX` rather than wrap.
    pub fn clear_lines(&mut self)
        requires
            old(self).wf(),
        ensures
            final(self).wf(),
            final(self)@ == (GameModel {
                grid: cleared(old(self)@.grid),
                score: capped(old(self)@.score + award(full_count(old(self)@.grid))),
                ..old(self)@
            }),
    {
        let n = clear_full_rows(&mut self.grid);
        let points: u64 = if n == 0 {
            0
        } else if n == 1 {
            100
        } else if n == 2 {
            300
        } else if n == 3 {
            500
        } else {
            800
        };
        self.score = self.score.saturating_add(points);
    }

    /// Locks the active piece: its blocks are written into the grid in order, and a
    /// block above the grid ends the game on the spot. Otherwise full rows are cleared
    /// and a piece of shape `next` becomes the active piece.
    pub fn freeze_tetromino_with(&mut self, next: Shape)
        requires
            old(self).wf(),
        ensures
            final(self).wf(),
            final(self)@ == freeze_model(old(self)@, next),
            times_of(final(self)@, old(self)@) == final(self)@,
            old(self).game_over ==> final(self).game_over,
    {
        reveal(freeze_model);
        let ghost bs = self.tetromino.blocks@;
        let ghost g0 = self@.grid;
        let mut i: usize = 0;
        assert(bs.subrange(0, 4) =~= bs);
        while i < 4
            invariant
                0 <= i <= 4,
                self.wf(),
                bs == self.tetromino.blocks@,
                bs == old(self)@.blocks,
                g0 == old(self)@.grid,
                self.tetromino.shape == old(self).tetromino.shape,
                self.game_over == old(self).game_over,
                self.score == old(self).score,
                self.last_move_time == old(self).last_move_time,
                self.last_drop_time == old(self).last_drop_time,
                self.last_rotate_time == old(self).last_rotate_time,
                lock_cells(g0, bs) == lock_cells(self@.grid, bs.subrange(i as int, 4)),
            decreases 4 - i,
        {
            let b = self.tetromino.blocks[i];
            let ghost g = self@.grid;
            proof {
                let t = bs.subrange(i as int, 4);
                assert(t[0] == b);
                assert(t.drop_first() =~= bs.subrange(i + 1, 4));
            }
            if b.y >= 0 {
                assert(0 <= b.x < GRID_WIDTH);
                self.grid[b.y as usize][b.x as usize] = Some(b.color);
                assert(self@.grid =~= g.update(b.y as int, g[b.y as int].update(b.x as int, Some(b.color))));
            } else {
                self.game_over = true;
                proof {
                    reveal(freeze_model);
                }
                return;
            }
            i += 1;
        }
        assert(bs.subrange(4, 4) =~= Seq::<Block>::empty());
        self.clear_lines();
        self.tetromino = Tetromino::spawn(next);
    }

    /// Locks the active piece as `freeze_tetromino_with` does, with a random next shape.
    pub fn freeze_tetromino(&mut self)
        requires
            old(self).wf(),
        ensures
            final(self).wf(),
            final(self)@ == freeze_model(old(self)@, final(self)@.shape),
            times_of(final(self)@, old(self)@) == final(self)@,
            old(self).game_over ==> final(self).game_over,
    {
        reveal(freeze_model);
        let next = Shape::random();
        self.freeze_tetromino_with(next);
    }

    /// One tick of the game at clock reading `now` with the keys in `input` held.
    /// Nothing happens once the game is over. Otherwise each gated action fires only
    /// when its own interval has passed since it last fired, and records `now`:
    /// left and right moves, the soft drop (sharing the move gate), rotation, and
    /// the automatic drop.
    #[verifier::rlimit(50)]
    pub fn update(&mut self, now: u64, input: Input)
        requires
            old(self).wf(),
            old(self).clock_ok(now),
        ensures
            final(self).wf(),
            final(self).clock_ok(now),
            exists|k1: Shape, k2: Shape| final(self)@ == update_model(old(self)@, now as int, input, k1, k2),
            old(self).game_over ==> final(self)@ == old(self)@,
            final(self).last_move_time == if !old(self).game_over && (input.left || input.right || input.down)
                && now - old(self).last_move_time >= MOVE_INTERVAL_MS {
                now
            } else {
                old(self).last_move_time
            },
            final(self).last_rotate_time == if !old(self).game_over && input.up
                && now - old(self).last_rotate_time >= MOVE_INTERVAL_MS {
                now
            } else {
                old(self).last_rotate_time
            },
            final(self).last_drop_time == if !old(self).game_over
                && now - old(self).last_drop_time >= DROP_INTERVAL_MS {
                now
            } else {
                old(self).last_drop_time
            },
    {
        if self.game_over {
            assert(update_model(old(self)@, now as int, input, Shape::O, Shape::O) == old(self)@);
            return;
        }
        let ghost s0 = self@;
        let ghost mut k1 = self.tetromino.shape;
        let ghost mut k2 = self.tetromino.shape;
        if now - self.last_move_time >= MOVE_INTERVAL_MS {
            if input.left {
                self.move_tetromino(-1, 0);
                self.last_move_time = now;
            }
            if input.right {
                self.move_tetromino(1, 0);
                self.last_move_time = now;
            }
        }
        let ghost s1 = self@;
        assert(s1 == horizontal_stage(s0, now as int, input));
        if input.down {
            if now - self.last_move_time >= MOVE_INTERVAL_MS {
                self.move_tetromino(0, 1);
                proof {
                    k1 = self.tetromino.shape;
                }
                self.last_move_time = now;
            }
        }
        let ghost s2 = self@;
        assert(s2 == soft_drop_stage(s1, now as int, input, k1));
        if input.up {
            if now - self.last_rotate_time >= MOVE_INTERVAL_MS {
                self.rotate_tetromino();
                self.last_rotate_time = now;
            }
        }
        let ghost s3 = self@;
        assert(s3 == rotate_stage(s2, now as int, input));
        if now - self.last_drop_time >= DROP_INTERVAL_MS {
            self.move_tetromino(0, 1);
            proof {
                k2 = self.tetromino.shape;
            }
            self.last_drop_time = now;
        }
        assert(self@ == auto_drop_stage(s3, now as int, k2));
        assert(self@ == update_model(old(self)@, now as int, input, k1, k2));
    }

    /// The locked cells as blocks, in row-major order from the top left, for drawing.
    pub fn frozen_blocks(&self) -> (r: Vec<Block>)
        requires
            self.wf(),
        ensures
            forall|k: int| 0 <= k < r@.len() ==> cell_holds(self@.grid, #[trigger] r@[k]),
            forall|k: int, l: int| 0 <= k < l < r@.len() ==> before(#[trigger] r@[k], #[trigger] r@[l]),
            forall|y: int, x: int|
                0 <= y < GRID_HEIGHT && 0 <= x < GRID_WIDTH && (#[trigger] self@.grid[y][x]) is Some
                    ==> exists|k: int| 0 <= k < r@.len() && (#[trigger] r@[k]).x == x && r@[k].y == y,
    {
        let mut r: Vec<Block> = Vec::new();
        let mut y: i32 = 0;
        while y < GRID_HEIGHT
            invariant
                self.wf(),
                0 <= y <= GRID_HEIGHT,
                forall|k: int| 0 <= k < r@.len() ==> cell_holds(self@.grid, #[trigger] r@[k]),
                forall|k: int| 0 <= k < r@.len() ==> (#[trigger] r@[k]).y < y,
                forall|k: int, l: int| 0 <= k < l < r@.len() ==> before(#[trigger] r@[k], #[trigger] r@[l]),
                forall|yy: int, x: int|
                    0 <= yy < y && 0 <= x < GRID_WIDTH && (#[trigger] self@.grid[yy][x]) is Some
                        ==> exists|k: int| 0 <= k < r@.len() && (#[trigger] r@[k]).x == x && r@[k].y == yy,
            decreases GRID_HEIGHT - y,
        {
            let mut x: i32 = 0;
            while x < GRID_WIDTH
                invariant
                    self.wf(),
                    0 <= y < GRID_HEIGHT,
                    0 <= x <= GRID_WIDTH,
                    forall|k: int| 0 <= k < r@.len() ==> cell_holds(self@.grid, #[trigger] r@[k]),
                    forall|k: int| 0 <= k < r@.len() ==> before(#[trigger] r@[k], Block { x, y, color: Shape::I }),
                    forall|k: int, l: int| 0 <= k < l < r@.len() ==> before(#[trigger] r@[k], #[trigger] r@[l]),
                    forall|yy: int, xx: int|
                        (0 <= yy < y && 0 <= xx < GRID_WIDTH || yy == y && 0 <= xx < x) && (#[trigger] self@.grid[yy][xx]) is Some
                            ==> exists|k: int| 0 <= k < r@.len() && (#[trigger] r@[k]).x == xx && r@[k].y == yy,
                decreases GRID_WIDTH - x,
            {
                assert(self@.grid[y as int] == self.grid@[y as int]@);
                match self.grid[y as usize][x as usize] {
                    Some(c) => {
                        let ghost prev = r@;
                        r.push(Block { x, y, color: c });
                        assert(r@[prev.len() as int].x == x);
                        assert forall|yy: int, xx: int|
                            (0 <= yy < y && 0 <= xx < GRID_WIDTH || yy == y && 0 <= xx < x + 1) && (#[trigger] self@.grid[yy][xx]) is Some
                                implies exists|k: int| 0 <= k < r@.len() && (#[trigger] r@[k]).x == xx && r@[k].y == yy by {
                            if !(yy == y && xx == x) {
                                let k = choose|k: int| 0 <= k < prev.len() && (#[trigger] prev[k]).x == xx && prev[k].y == yy;
                                assert(r@[k] == prev[k]);
                            }
                        }
                    },
                    None => {},
                }
                x += 1;
            }
            y += 1;
        }
        r
    }
}

} // verus!
