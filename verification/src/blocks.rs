//! The seven tetromino kinds, their four hand-authored orientations, and the
//! active piece built from them.

use rand::Rng;
use vstd::prelude::*;

verus! {

/// The seven tetromino kinds.
#[derive(Debug, Clone, Copy, PartialEq, Eq, Structural)]
pub enum BlockType {
    I,
    O,
    T,
    S,
    Z,
    J,
    L,
}

/// Display colour of each kind, in table order.
pub const BLOCK_COLORS: [(u8, u8, u8); 7] = [
    (0, 255, 255),  // I - cyan
    (255, 255, 0),  // O - yellow
    (128, 0, 128),  // T - purple
    (0, 255, 0),  // S - green
    (255, 0, 0),  // Z - red
    (0, 0, 255),  // J - blue
    (255, 165, 0),  // L - orange
];

/// The shape table: `[kind][rotation][block] = (x, y)`, offsets from the
/// piece's local origin inside a 4x4 box.
pub const BLOCK_SHAPES: [[[(i32, i32); 4]; 4]; 7] = [
    // I
    [
        [(0, 1), (1, 1), (2, 1), (3, 1)],
        [(2, 0), (2, 1), (2, 2), (2, 3)],
        [(0, 2), (1, 2), (2, 2), (3, 2)],
        [(1, 0), (1, 1), (1, 2), (1, 3)],
    ],
    // O
    [
        [(1, 0), (2, 0), (1, 1), (2, 1)],
        [(1, 0), (2, 0), (1, 1), (2, 1)],
        [(1, 0), (2, 0), (1, 1), (2, 1)],
        [(1, 0), (2, 0), (1, 1), (2, 1)],
    ],
    // T
    [
        [(1, 0), (0, 1), (1, 1), (2, 1)],
        [(1, 0), (1, 1), (2, 1), (1, 2)],
        [(0, 1), (1, 1), (2, 1), (1, 2)],
        [(1, 0), (0, 1), (1, 1), (1, 2)],
    ],
    // S
    [
        [(1, 0), (2, 0), (0, 1), (1, 1)],
        [(1, 0), (1, 1), (2, 1), (2, 2)],
        [(1, 1), (2, 1), (0, 2), (1, 2)],
        [(0, 0), (0, 1), (1, 1), (1, 2)],
    ],
    // Z
    [
        [(0, 0), (1, 0), (1, 1), (2, 1)],
        [(2, 0), (1, 1), (2, 1), (1, 2)],
        [(0, 1), (1, 1), (1, 2), (2, 2)],
        [(1, 0), (0, 1), (1, 1), (0, 2)],
    ],
    // J
    [
        [(0, 0), (0, 1), (1, 1), (2, 1)],
        [(1, 0), (2, 0), (1, 1), (1, 2)],
        [(0, 1), (1, 1), (2, 1), (2, 2)],
        [(1, 0), (1, 1), (0, 2), (1, 2)],
    ],
    // L
    [
        [(2, 0), (0, 1), (1, 1), (2, 1)],
        [(1, 0), (1, 1), (1, 2), (2, 2)],
        [(0, 1), (1, 1), (2, 1), (0, 2)],
        [(0, 0), (1, 0), (1, 1), (1, 2)],
    ],
];

/// Number of tetromino kinds.
pub const KIND_COUNT: u32 = 7;

impl BlockType {
    /// Position of the kind in the shape table.
    pub open spec fn index_spec(self) -> int {
        match self {
            BlockType::I => 0,
            BlockType::O => 1,
            BlockType::T => 2,
            BlockType::S => 3,
            BlockType::Z => 4,
            BlockType::J => 5,
            BlockType::L => 6,
        }
    }

    /// Position of the kind in the shape table; also the marker that a locked
    /// cell of this kind carries on the board.
    pub fn index(self) -> (i: u8)
        ensures
            i == self.index_spec(),
            i < 7,
    {
        match self {
            BlockType::I => 0,
            BlockType::O => 1,
            BlockType::T => 2,
            BlockType::S => 3,
            BlockType::Z => 4,
            BlockType::J => 5,
            BlockType::L => 6,
        }
    }

    /// The kind that a drawn number selects; anything past the table's end
    /// selects the last kind.
    pub open spec fn from_index_spec(i: int) -> BlockType {
        if i == 0 {
            BlockType::I
        } else if i == 1 {
            BlockType::O
        } else if i == 2 {
            BlockType::T
        } else if i == 3 {
            BlockType::S
        } else if i == 4 {
            BlockType::Z
        } else if i == 5 {
            BlockType::J
        } else {
            BlockType::L
        }
    }

    /// Picks the kind for a drawn number.
    pub fn from_index(i: u32) -> (kind: BlockType)
        ensures
            kind == Self::from_index_spec(i as int),
            i < 7 ==> kind.index_spec() == i,
    {
        match i {
            0 => BlockType::I,
            1 => BlockType::O,
            2 => BlockType::T,
            3 => BlockType::S,
            4 => BlockType::Z,
            5 => BlockType::J,
            _ => BlockType::L,
        }
    }
}

/// The four offsets of `kind` in orientation `rotation`, as the table lists them.
pub open spec fn shape_offsets(kind: BlockType, rotation: int) -> Seq<(i32, i32)>
    recommends
        0 <= rotation < 4,
{
    BLOCK_SHAPES[kind.index_spec()][rotation]@
}

/// No two entries of `cells` are the same cell.
pub open spec fn pairwise_distinct(cells: Seq<(i32, i32)>) -> bool {
    forall|i: int, j: int| 0 <= i < j < cells.len() ==> cells[i] != cells[j]
}

/// Every offset lies inside the 4x4 box of the piece.
pub open spec fn within_box(cells: Seq<(i32, i32)>) -> bool {
    forall|i: int| 0 <= i < cells.len() ==> 0 <= (#[trigger] cells[i]).0 < 4 && 0 <= cells[i].1 < 4
}

/// Shape-table lookup.
pub fn cells_for(kind: BlockType, rotation: usize) -> (shape: [(i32, i32); 4])
    requires
        rotation < 4,
    ensures
        shape@ == shape_offsets(kind, rotation as int),
        shape@.len() == 4,
        pairwise_distinct(shape@),
        within_box(shape@),
{
    proof {
        lemma_shape_table(kind, rotation as int);
    }
    let k: usize = kind.index() as usize;
    BLOCK_SHAPES[k][rotation]
}

/// Every entry of the shape table holds exactly four offsets, no two of them
/// equal, all inside the 4x4 box.
pub proof fn lemma_shape_table(kind: BlockType, rotation: int)
    requires
        0 <= rotation < 4,
    ensures
        shape_offsets(kind, rotation).len() == 4,
        pairwise_distinct(shape_offsets(kind, rotation)),
        within_box(shape_offsets(kind, rotation)),
{
}

/// The active piece: a kind, one of its four orientations, and the board
/// position `(x, y)` of its local origin.
#[derive(Debug, Clone, Copy, PartialEq, Eq, Structural)]
pub struct Tetromino {
    pub kind: BlockType,
    pub rotation: usize,
    pub x: i32,
    pub y: i32,
}

impl Tetromino {
    /// The orientation is one of the four of the table, and the far corner of
    /// the piece's 4x4 box is still a representable coordinate.
    pub open spec fn wf(&self) -> bool {
        &&& self.rotation < 4
        &&& self.x + 3 <= i32::MAX
        &&& self.y + 3 <= i32::MAX
    }

    /// Whether the piece is well formed.
    pub fn is_wf(&self) -> (ok: bool)
        ensures
            ok == self.wf(),
    {
        self.rotation < 4 && self.x <= i32::MAX - 3 && self.y <= i32::MAX - 3
    }

    /// The `i`-th occupied cell as an absolute `(x, y)` pair: the origin plus
    /// the table's offset.
    pub open spec fn cell(&self, i: int) -> (int, int) {
        let offset = shape_offsets(self.kind, self.rotation as int)[i];
        (self.x + offset.0, self.y + offset.1)
    }

    /// The set of the four absolute cells.
    pub open spec fn cell_set(&self) -> Set<(int, int)> {
        Set::new(|c: (int, int)| exists|i: int| 0 <= i < 4 && c == self.cell(i))
    }

    /// The piece in its next orientation, at the same place.
    pub open spec fn rotated(&self) -> Tetromino {
        Tetromino {
            kind: self.kind,
            rotation: ((self.rotation + 1) % 4) as usize,
            x: self.x,
            y: self.y,
        }
    }

    /// The piece displaced by `(dx, dy)`.
    pub open spec fn shifted(&self, dx: int, dy: int) -> Tetromino
        recommends
            i32::MIN <= self.x + dx <= i32::MAX,
            i32::MIN <= self.y + dy <= i32::MAX,
    {
        Tetromino {
            kind: self.kind,
            rotation: self.rotation,
            x: (self.x + dx) as i32,
            y: (self.y + dy) as i32,
        }
    }

    /// A piece of the given kind at `(x, y)` in the table's first orientation.
    pub fn new(kind: BlockType, x: i32, y: i32) -> (piece: Tetromino)
        ensures
            piece == (Tetromino { kind, rotation: 0, x, y }),
    {
        Tetromino { kind, rotation: 0, x, y }
    }

    /// The four absolute cells, in table order.
    pub fn cells(&self) -> (cells: [(i32, i32); 4])
        requires
            self.wf(),
        ensures
            forall|i: int|
                0 <= i < 4 ==> (#[trigger] cells[i]).0 == self.cell(i).0 && cells[i].1
                    == self.cell(i).1,
            forall|i: int, j: int| 0 <= i < j < 4 ==> cells[i] != cells[j],
    {
        let shape = cells_for(self.kind, self.rotation);
        [
            (self.x + shape[0].0, self.y + shape[0].1),
            (self.x + shape[1].0, self.y + shape[1].1),
            (self.x + shape[2].0, self.y + shape[2].1),
            (self.x + shape[3].0, self.y + shape[3].1),
        ]
    }

    /// Proposes the next orientation. Nothing is checked against a board:
    /// the caller keeps the result only where it can be placed.
    pub fn rotate(&mut self)
        ensures
            *final(self) == old(self).rotated(),
    {
        self.rotation = (self.rotation % 4 + 1) % 4;
    }

    /// Display colour of the piece.
    pub fn color(&self) -> (rgb: (u8, u8, u8))
        ensures
            rgb == (255u8, 255u8, 255u8),
    {
        (255, 255, 255)
    }
}

/// Four rotations bring a piece back to where it started: the same
/// orientation, hence the same set of absolute cells.
pub proof fn lemma_rotation_cycle(piece: Tetromino)
    requires
        piece.rotation < 4,
    ensures
        piece.rotated().rotated().rotated().rotated() == piece,
        piece.rotated().rotated().rotated().rotated().cell_set() == piece.cell_set(),
        piece.rotated().rotation < 4,
        piece.rotated().rotation != piece.rotation,
{
}

/// Draws a number below `bound` by `rand::Rng::gen_range` on `0..bound`, from
/// the generator that `rand::thread_rng` hands out. The range is half open,
/// so what comes back is below `bound`; which number it is depends on chance.
/// An empty range makes `gen_range` panic, hence the bound must be positive.
#[verifier::external_body]
fn random_below(bound: u32) -> (n: u32)
    requires
        bound > 0,
    ensures
        n < bound,
{
    rand::thread_rng().gen_range(0..bound)
}

/// A kind drawn at random. Which one comes out is left to chance, so
/// nothing is promised of it.
pub fn random_kind() -> BlockType {
    let drawn: u32 = random_below(KIND_COUNT);
    BlockType::from_index(drawn)
}

/// A piece of a kind drawn at random, at `(x, y)` in the first orientation.
pub fn random_tetromino(x: i32, y: i32) -> (piece: Tetromino)
    ensures
        piece == (Tetromino { kind: piece.kind, rotation: 0, x, y }),
{
    Tetromino::new(random_kind(), x, y)
}

} // verus!
