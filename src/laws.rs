//! Laws of the engine, stated over its model and proved.

use vstd::prelude::*;
use crate::piece::{Shape, Block, blocks_wf, spawn_blocks, GRID_WIDTH, GRID_HEIGHT};
use crate::board::{Row, grid_wf, cleared, kept_rows, row_full, full_count, empty_rows, award};
use crate::game::{
    GameState, GameModel, Input, MOVE_INTERVAL_MS, can_move, placeable, lock_cells, freeze_model,
    move_model, update_model,
};

verus! {

/// Every block inside the grid's columns and rows.
pub open spec fn blocks_inside(bs: Seq<Block>) -> bool {
    forall|i: int|
        0 <= i < bs.len() ==> 0 <= #[trigger] bs[i].x < GRID_WIDTH && 0 <= bs[i].y < GRID_HEIGHT
}

proof fn lemma_lock_some_above(g: Seq<Row>, bs: Seq<Block>)
    ensures
        lock_cells(g, bs).1 <==> exists|i: int| 0 <= i < bs.len() && (#[trigger] bs[i]).y < 0,
    decreases bs.len(),
{
    if bs.len() > 0 && bs[0].y >= 0 {
        let g1 = g.update(bs[0].y as int, g[bs[0].y as int].update(bs[0].x as int, Some(bs[0].color)));
        lemma_lock_some_above(g1, bs.drop_first());
        if lock_cells(g, bs).1 {
            let i = choose|i: int| 0 <= i < bs.len() - 1 && (#[trigger] bs.drop_first()[i]).y < 0;
            assert(bs[i + 1].y < 0);
        }
        if exists|i: int| 0 <= i < bs.len() && (#[trigger] bs[i]).y < 0 {
            let i = choose|i: int| 0 <= i < bs.len() && (#[trigger] bs[i]).y < 0;
            assert(bs.drop_first()[i - 1].y < 0);
        }
    }
}

proof fn lemma_lock_occupies(g: Seq<Row>, bs: Seq<Block>)
    requires
        grid_wf(g),
        blocks_inside(bs),
    ensures
        !lock_cells(g, bs).1,
        grid_wf(lock_cells(g, bs).0),
        forall|i: int| 0 <= i < bs.len() ==> (#[trigger] lock_cells(g, bs).0[bs[i].y as int][bs[i].x as int]) is Some,
        forall|r: int, c: int|
            0 <= r < GRID_HEIGHT && 0 <= c < GRID_WIDTH && (#[trigger] g[r][c]) is Some
                ==> lock_cells(g, bs).0[r][c] is Some,
    decreases bs.len(),
{
    if bs.len() > 0 {
        let b = bs[0];
        assert(0 <= b.x < GRID_WIDTH && 0 <= b.y < GRID_HEIGHT);
        let g1 = g.update(b.y as int, g[b.y as int].update(b.x as int, Some(b.color)));
        let rest = bs.drop_first();
        assert forall|i: int| 0 <= i < rest.len() implies 0 <= #[trigger] rest[i].x < GRID_WIDTH && 0 <= rest[i].y < GRID_HEIGHT by {
            assert(rest[i] == bs[i + 1]);
        }
        assert(grid_wf(g1));
        lemma_lock_occupies(g1, rest);
        let out = lock_cells(g, bs).0;
        assert(out == lock_cells(g1, rest).0);
        assert(g1[b.y as int][b.x as int] is Some);
        assert forall|i: int| 0 <= i < bs.len() implies (#[trigger] out[bs[i].y as int][bs[i].x as int]) is Some by {
            if i > 0 {
                assert(rest[i - 1] == bs[i]);
            }
        }
        assert forall|r: int, c: int|
            0 <= r < GRID_HEIGHT && 0 <= c < GRID_WIDTH && (#[trigger] g[r][c]) is Some implies out[r][c] is Some by {
            assert(g1[r][c] is Some);
        }
    }
}

/// Bounds: in a well-formed engine every block of the active piece lies in the
/// grid's columns and above its floor, and the grid holds exactly
/// `GRID_HEIGHT` rows of `GRID_WIDTH` cells, so every occupied cell lies inside it.
/// Every constructor returns a well-formed engine and every operation keeps it so.
pub proof fn bounds_hold(g: &GameState)
    requires
        g.wf(),
    ensures
        forall|i: int|
            0 <= i < g@.blocks.len() ==> 0 <= #[trigger] g@.blocks[i].x < GRID_WIDTH && g@.blocks[i].y < GRID_HEIGHT,
        forall|r: int, c: int|
            0 <= r < g@.grid.len() && 0 <= c < g@.grid[r].len() && (#[trigger] g@.grid[r][c]) is Some
                ==> 0 <= r < GRID_HEIGHT && 0 <= c < GRID_WIDTH,
{
}

/// Locking ends the game exactly when some block of the piece is above the grid.
pub proof fn lock_above_grid_ends_game(s: GameModel, next: Shape)
    requires
        !s.game_over,
    ensures
        freeze_model(s, next).game_over <==> exists|i: int| 0 <= i < s.blocks.len() && (#[trigger] s.blocks[i]).y < 0,
{
    reveal(freeze_model);
    lemma_lock_some_above(s.grid, s.blocks);
}

/// A downward move of a piece with an occupied cell right below one of its blocks
/// locks it where it stands: every cell it covered is occupied before full rows are
/// cleared, the cleared grid is what remains, and a piece of shape `next` spawns.
pub proof fn blocked_fall_locks(s: GameModel, next: Shape)
    requires
        grid_wf(s.grid),
        blocks_wf(s.blocks),
        blocks_inside(s.blocks),
        exists|i: int|
            0 <= i < s.blocks.len() && 0 <= (#[trigger] s.blocks[i]).y + 1 < GRID_HEIGHT
                && s.grid[s.blocks[i].y + 1][s.blocks[i].x as int] is Some,
    ensures
        move_model(s, 0, 1, next) == freeze_model(s, next),
        move_model(s, 0, 1, next).blocks == spawn_blocks(next),
        move_model(s, 0, 1, next).shape == next,
        move_model(s, 0, 1, next).grid == cleared(lock_cells(s.grid, s.blocks).0),
        forall|i: int|
            0 <= i < s.blocks.len() ==> (#[trigger] lock_cells(s.grid, s.blocks).0[s.blocks[i].y as int][s.blocks[i].x as int]) is Some,
{
    reveal(move_model);
    reveal(freeze_model);
    let i = choose|i: int|
        0 <= i < s.blocks.len() && 0 <= (#[trigger] s.blocks[i]).y + 1 < GRID_HEIGHT
            && s.grid[s.blocks[i].y + 1][s.blocks[i].x as int] is Some;
    assert(!placeable(s.grid, s.blocks[i].x + 0, s.blocks[i].y + 1));
    assert(!can_move(s, 0, 1));
    lemma_lock_occupies(s.grid, s.blocks);
}

/// An update changes none of the three firing times but by setting it to `now`:
/// the move gate fires when left, right or down is held and its interval has passed,
/// the rotate gate when up is held and its interval has passed, the drop gate when
/// its interval has passed; no gate's firing touches another's time.
pub proof fn update_firing_times(s: GameModel, now: int, inp: Input, k1: Shape, k2: Shape)
    requires
        !s.game_over,
    ensures
        update_model(s, now, inp, k1, k2).last_move == if (inp.left || inp.right || inp.down)
            && now - s.last_move >= MOVE_INTERVAL_MS {
            now
        } else {
            s.last_move
        },
        update_model(s, now, inp, k1, k2).last_rotate == if inp.up && now - s.last_rotate >= MOVE_INTERVAL_MS {
            now
        } else {
            s.last_rotate
        },
        update_model(s, now, inp, k1, k2).last_drop == if now - s.last_drop >= crate::game::DROP_INTERVAL_MS {
            now
        } else {
            s.last_drop
        },
{
}

/// Two updates less than the move interval apart, whatever keys are held, fire the
/// move gate at most once and the rotate gate at most once between them.
pub proof fn gates_space_firings(
    s: GameModel,
    t1: int,
    t2: int,
    in1: Input,
    in2: Input,
    a1: Shape,
    b1: Shape,
    a2: Shape,
    b2: Shape,
)
    requires
        s.last_move <= t1,
        s.last_rotate <= t1,
        t1 <= t2 < t1 + MOVE_INTERVAL_MS,
    ensures
        ({
            let s1 = update_model(s, t1, in1, a1, b1);
            let s2 = update_model(s1, t2, in2, a2, b2);
            &&& !(s1.last_move != s.last_move && s2.last_move != s1.last_move)
            &&& !(s1.last_rotate != s.last_rotate && s2.last_rotate != s1.last_rotate)
        }),
{
    let s1 = update_model(s, t1, in1, a1, b1);
    if !s.game_over {
        update_firing_times(s, t1, in1, a1, b1);
        if !s1.game_over {
            update_firing_times(s1, t2, in2, a2, b2);
        }
    }
}

/// Once the game is over an update changes nothing: the flag stays set and the grid,
/// score, piece and timers stay as they are.
pub proof fn game_over_is_final(s: GameModel, now: int, inp: Input, k1: Shape, k2: Shape)
    requires
        s.game_over,
    ensures
        update_model(s, now, inp, k1, k2) == s,
{
}

proof fn lemma_kept_concat(a: Seq<Row>, b: Seq<Row>)
    ensures
        kept_rows(a + b) == kept_rows(a) + kept_rows(b),
    decreases a.len(),
{
    if a.len() == 0 {
        assert(a + b =~= b);
        assert(kept_rows(a) + kept_rows(b) =~= kept_rows(b));
    } else {
        assert((a + b)[0] == a[0]);
        assert((a + b).drop_first() =~= a.drop_first() + b);
        lemma_kept_concat(a.drop_first(), b);
        if !row_full(a[0]) {
            assert(seq![a[0]] + (kept_rows(a.drop_first()) + kept_rows(b)) =~= (seq![a[0]] + kept_rows(a.drop_first())) + kept_rows(b));
        }
    }
}

proof fn lemma_kept_no_full(a: Seq<Row>)
    requires
        forall|r: int| 0 <= r < a.len() ==> !row_full(#[trigger] a[r]),
    ensures
        kept_rows(a) == a,
    decreases a.len(),
{
    if a.len() > 0 {
        assert(!row_full(a[0]));
        let t = a.drop_first();
        assert forall|r: int| 0 <= r < t.len() implies !row_full(#[trigger] t[r]) by {
            assert(t[r] == a[r + 1]);
        }
        lemma_kept_no_full(t);
        assert(seq![a[0]] + t =~= a);
    }
}

proof fn lemma_kept_all_full(b: Seq<Row>)
    requires
        forall|r: int| 0 <= r < b.len() ==> row_full(#[trigger] b[r]),
    ensures
        kept_rows(b).len() == 0,
    decreases b.len(),
{
    if b.len() > 0 {
        assert(row_full(b[0]));
        let t = b.drop_first();
        assert forall|r: int| 0 <= r < t.len() implies row_full(#[trigger] t[r]) by {
            assert(t[r] == b[r + 1]);
        }
        lemma_kept_all_full(t);
    }
}

/// When the full rows of a grid are exactly its bottom `n` rows, clearing removes
/// them, moves every row above down by `n` and leaves `n` empty rows on top; the lock
/// earns `award(n)`: 100 points for one row, 800 for four.
pub proof fn bottom_rows_clear(g: Seq<Row>, n: int)
    requires
        grid_wf(g),
        0 <= n <= GRID_HEIGHT,
        forall|r: int| 0 <= r < GRID_HEIGHT - n ==> !row_full(#[trigger] g[r]),
        forall|r: int| GRID_HEIGHT - n <= r < GRID_HEIGHT ==> row_full(#[trigger] g[r]),
    ensures
        full_count(g) == n,
        cleared(g) == empty_rows(n as nat) + g.subrange(0, GRID_HEIGHT - n),
        n == 1 ==> award(full_count(g)) == 100,
        n == 4 ==> award(full_count(g)) == 800,
{
    let k = GRID_HEIGHT - n;
    let top = g.subrange(0, k);
    let bottom = g.subrange(k, GRID_HEIGHT as int);
    assert(g =~= top + bottom);
    assert forall|r: int| 0 <= r < top.len() implies !row_full(#[trigger] top[r]) by {
        assert(top[r] == g[r]);
    }
    assert forall|r: int| 0 <= r < bottom.len() implies row_full(#[trigger] bottom[r]) by {
        assert(bottom[r] == g[r + k]);
    }
    lemma_kept_concat(top, bottom);
    lemma_kept_no_full(top);
    lemma_kept_all_full(bottom);
    assert(kept_rows(g) =~= top);
}

} // verus!
