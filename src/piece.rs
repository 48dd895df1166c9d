//! Shapes, blocks and pieces, and the catalogue pieces spawn from.

use vstd::prelude::*;
use rand::Rng;

verus! {

/// Width of the playing field, in cells.
pub const GRID_WIDTH: i32 = 10;

/// Height of the playing field, in cells.
pub const GRID_HEIGHT: i32 = 20;

/// Lowest row the pivot of a piece may reach; coordinates stay far from `i32::MIN`.
pub const MIN_ROW: i32 = -1_000_000;

/// The seven piece shapes. A shape also serves as the colour tag of its blocks.
#[derive(Clone, Copy, PartialEq, Eq, Structural, Debug)]
pub enum Shape {
    I,
    O,
    L,
    J,
    T,
    S,
    Z,
}

/// One cell of a piece: grid column `x`, grid row `y` (rows grow downward) and a colour.
#[derive(Clone, Copy, PartialEq, Eq, Structural, Debug)]
pub struct Block {
    pub x: i32,
    pub y: i32,
    pub color: Shape,
}

/// The falling piece: four blocks and the shape it was spawned as.
pub struct Tetromino {
    pub blocks: Vec<Block>,
    pub shape: Shape,
}

/// The shape with catalogue index `i`, in the order I, O, L, J, T, S, Z.
pub open spec fn shape_at(i: int) -> Shape {
    if i == 0 {
        Shape::I
    } else if i == 1 {
        Shape::O
    } else if i == 2 {
        Shape::L
    } else if i == 3 {
        Shape::J
    } else if i == 4 {
        Shape::T
    } else if i == 5 {
        Shape::S
    } else {
        Shape::Z
    }
}

pub open spec fn blk(x: i32, y: i32, c: Shape) -> Block {
    Block { x, y, color: c }
}

/// The four blocks a piece of shape `s` spawns with, near the top centre of the grid.
pub open spec fn spawn_blocks(s: Shape) -> Seq<Block> {
    match s {
        Shape::I => seq![blk(3, 0, s), blk(4, 0, s), blk(5, 0, s), blk(6, 0, s)],
        Shape::O => seq![blk(4, 0, s), blk(5, 0, s), blk(4, 1, s), blk(5, 1, s)],
        Shape::L => seq![blk(3, 0, s), blk(3, 1, s), blk(4, 1, s), blk(5, 1, s)],
        Shape::J => seq![blk(5, 0, s), blk(3, 1, s), blk(4, 1, s), blk(5, 1, s)],
        Shape::T => seq![blk(4, 0, s), blk(3, 1, s), blk(4, 1, s), blk(5, 1, s)],
        Shape::S => seq![blk(4, 0, s), blk(5, 0, s), blk(3, 1, s), blk(4, 1, s)],
        Shape::Z => seq![blk(3, 0, s), blk(4, 0, s), blk(4, 1, s), blk(5, 1, s)],
    }
}

/// Well-formed blocks of a piece: four of them, each inside the columns and above
/// the floor, and none more than nine rows above the pivot (block 1), whose row is
/// never above `MIN_ROW`. A quarter turn keeps the pivot in place and moves no block
/// further than nine rows from it, so these bounds survive rotation.
pub open spec fn blocks_wf(bs: Seq<Block>) -> bool {
    &&& bs.len() == 4
    &&& bs[1].y >= MIN_ROW
    &&& forall|i: int|
        0 <= i < 4 ==> {
            &&& 0 <= #[trigger] bs[i].x < GRID_WIDTH
            &&& bs[i].y < GRID_HEIGHT
            &&& bs[i].y >= bs[1].y - 9
        }
}

impl Shape {
    /// The shape with catalogue index `i`.
    pub fn from_index(i: u32) -> (r: Shape)
        requires
            i < 7,
        ensures
            r == shape_at(i as int),
    {
        if i == 0 {
            Shape::I
        } else if i == 1 {
            Shape::O
        } else if i == 2 {
            Shape::L
        } else if i == 3 {
            Shape::J
        } else if i == 4 {
            Shape::T
        } else if i == 5 {
            Shape::S
        } else {
            Shape::Z
        }
    }

    /// A shape drawn uniformly at random.
    pub fn random() -> (r: Shape)
        ensures
            exists|i: int| 0 <= i < 7 && r == shape_at(i),
    {
        let i = draw_shape_index();
        Shape::from_index(i)
    }
}

/// Relies on rand's `thread_rng().gen_range(0..7)`: a value drawn from `0..7`.
#[verifier::external_body]
fn draw_shape_index() -> (r: u32)
    ensures
        r < 7,
{
    rand::thread_rng().gen_range(0..7u32)
}

impl Tetromino {
    pub open spec fn wf(&self) -> bool {
        blocks_wf(self.blocks@)
    }

    /// A new piece of shape `shape` at its spawn position.
    pub fn spawn(shape: Shape) -> (r: Tetromino)
        ensures
            r.shape == shape,
            r.blocks@ == spawn_blocks(shape),
            r.wf(),
    {
        let s = shape;
        let blocks = match shape {
            Shape::I => vec![Block { x: 3, y: 0, color: s }, Block { x: 4, y: 0, color: s }, Block { x: 5, y: 0, color: s }, Block { x: 6, y: 0, color: s }],
            Shape::O => vec![Block { x: 4, y: 0, color: s }, Block { x: 5, y: 0, color: s }, Block { x: 4, y: 1, color: s }, Block { x: 5, y: 1, color: s }],
            Shape::L => vec![Block { x: 3, y: 0, color: s }, Block { x: 3, y: 1, color: s }, Block { x: 4, y: 1, color: s }, Block { x: 5, y: 1, color: s }],
            Shape::J => vec![Block { x: 5, y: 0, color: s }, Block { x: 3, y: 1, color: s }, Block { x: 4, y: 1, color: s }, Block { x: 5, y: 1, color: s }],
            Shape::T => vec![Block { x: 4, y: 0, color: s }, Block { x: 3, y: 1, color: s }, Block { x: 4, y: 1, color: s }, Block { x: 5, y: 1, color: s }],
            Shape::S => vec![Block { x: 4, y: 0, color: s }, Block { x: 5, y: 0, color: s }, Block { x: 3, y: 1, color: s }, Block { x: 4, y: 1, color: s }],
            Shape::Z => vec![Block { x: 3, y: 0, color: s }, Block { x: 4, y: 0, color: s }, Block { x: 4, y: 1, color: s }, Block { x: 5, y: 1, color: s }],
        };
        let r = Tetromino { blocks, shape };
        assert(r.blocks@ =~= spawn_blocks(shape));
        r
    }

    /// A piece of a shape drawn uniformly at random, at its spawn position.
    pub fn create_random_tetromino() -> (r: Tetromino)
        ensures
            r.blocks@ == spawn_blocks(r.shape),
            r.wf(),
    {
        Tetromino::spawn(Shape::random())
    }
}

} // verus!
