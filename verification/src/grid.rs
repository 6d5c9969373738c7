//! The tile grid: a dense, row-major map of cells with a wall border, and its
//! generation from the random stream.

use vstd::prelude::*;
use crate::rand::{xorshift, Rand};

verus! {

/// Grid width in cells.
pub const W: isize = 80;

/// Grid height in cells.
pub const H: isize = 24;

/// Number of cells in a grid.
pub const CELLS: usize = 1920;

/// What occupies one cell of the map.
#[derive(Clone, Copy, PartialEq, Eq, Structural, Debug)]
pub enum Cell {
    /// Passable.
    Air,
    /// Generated rubble: blocks a falling actor, lets a rising one through.
    Solid,
    /// The screen border: blocks in every direction.
    Wall,
}

/// A cell coordinate.
#[derive(Clone, Copy, PartialEq, Eq, Structural, Debug)]
pub struct Pos {
    pub x: isize,
    pub y: isize,
}

/// `(x, y)` names a cell of the grid.
pub open spec fn in_grid(x: int, y: int) -> bool {
    0 <= x < W && 0 <= y < H
}

/// `(x, y)` lies on the outermost ring of the grid.
pub open spec fn on_border(x: int, y: int) -> bool {
    x == 0 || x == W - 1 || y == 0 || y == H - 1
}

/// `(x, y)` is a cell inside the border.
pub open spec fn interior(x: int, y: int) -> bool {
    1 <= x <= W - 2 && 1 <= y <= H - 2
}

/// Row-major position of `(x, y)` in the flat cell sequence.
pub open spec fn index_of(x: int, y: int) -> int {
    x + y * W
}

/// A cell that stops a falling actor.
pub open spec fn blocks_fall(c: Cell) -> bool {
    c == Cell::Solid || c == Cell::Wall
}

/// A cell that stops a rising actor.
pub open spec fn blocks_rise(c: Cell) -> bool {
    c == Cell::Wall
}

/// A cell sequence is a valid map: it has one entry per cell and its whole
/// border is wall.
pub open spec fn valid_cells(cells: Seq<Cell>) -> bool {
    &&& cells.len() == CELLS
    &&& forall|x: int, y: int|
        in_grid(x, y) && on_border(x, y) ==> #[trigger] cells[index_of(x, y)] == Cell::Wall
}

/// `cells` with a solid run laid on row `y`, covering the columns from
/// `x - len` up to but not including `x + len`, clipped to the interior.
pub open spec fn with_platform(cells: Seq<Cell>, x: int, y: int, len: int) -> Seq<Cell> {
    Seq::new(
        cells.len(),
        |i: int|
            if i / (W as int) == y && x - len <= i % (W as int) < x + len && 0 < i % (W as int) < W
                - 1 {
                Cell::Solid
            } else {
                cells[i]
            },
    )
}

/// Generation visits cell `(x, y)`: a border cell becomes wall and draws
/// nothing; an interior cell draws once, and on a draw divisible by 60 draws
/// again to pick a half-length of 2 or 3 and lays a platform anchored there.
pub open spec fn visit(st: (Seq<Cell>, usize), x: int, y: int) -> (Seq<Cell>, usize) {
    if on_border(x, y) {
        (st.0.update(index_of(x, y), Cell::Wall), st.1)
    } else {
        let r = xorshift(st.1);
        if r % 60 == 0 {
            let r2 = xorshift(r);
            (with_platform(st.0, x, y, 2 + (r2 % 2) as int), r2)
        } else {
            (st.0, r)
        }
    }
}

/// Cells and stream state after generation has visited the first `k` cells,
/// starting from an all-air map and stream state `seed`. Cells are visited
/// column by column, each column top to bottom.
pub open spec fn generated(seed: usize, k: nat) -> (Seq<Cell>, usize)
    decreases k,
{
    if k == 0 {
        (Seq::new(CELLS as nat, |i: int| Cell::Air), seed)
    } else {
        visit(generated(seed, (k - 1) as nat), (k - 1) / (H as int), (k - 1) % (H as int))
    }
}

/// The map generated from stream state `seed`.
pub open spec fn map_of(seed: usize) -> Seq<Cell> {
    generated(seed, CELLS as nat).0
}

/// The stream state that generation from `seed` leaves behind.
pub open spec fn seed_after_map(seed: usize) -> usize {
    generated(seed, CELLS as nat).1
}

/// What holds of the cells while generation is under way, after `k` visits:
/// every border cell visited so far is wall, and no cell off the border is.
pub open spec fn partly_generated(cells: Seq<Cell>, k: int) -> bool {
    &&& cells.len() == CELLS
    &&& forall|x: int, y: int|
        in_grid(x, y) && on_border(x, y) && x * H + y < k ==> #[trigger] cells[index_of(x, y)]
            == Cell::Wall
    &&& forall|i: int|
        0 <= i < cells.len() && #[trigger] cells[i] == Cell::Wall ==> on_border(
            i % (W as int),
            i / (W as int),
        )
}

/// The tile map. Its border is always wall.
pub struct Grid {
    cells: Vec<Cell>,
}

impl View for Grid {
    type V = Seq<Cell>;

    closed spec fn view(&self) -> Seq<Cell> {
        self.cells@
    }
}

impl Grid {
    /// The grid holds a valid map.
    pub open spec fn wf(&self) -> bool {
        valid_cells(self@)
    }

    /// The cell at `(x, y)`.
    pub open spec fn at(&self, x: int, y: int) -> Cell {
        self@[index_of(x, y)]
    }

    /// Wraps a cell sequence as a grid if it is a valid map.
    pub fn from_cells(cells: Vec<Cell>) -> (g: Option<Grid>)
        ensures
            g is Some <==> valid_cells(cells@),
            g matches Some(grid) ==> grid@ == cells@,
    {
        if cells.len() != CELLS {
            return None;
        }
        let mut i: usize = 0;
        while i < CELLS
            invariant
                cells.len() == CELLS,
                i <= CELLS,
                forall|j: int|
                    0 <= j < i && on_border(j % (W as int), j / (W as int)) ==> cells[j]
                        == Cell::Wall,
            decreases CELLS - i,
        {
            let x = (i % (W as usize)) as isize;
            let y = (i / (W as usize)) as isize;
            if (x == 0 || x == W - 1 || y == 0 || y == H - 1) && cells[i] != Cell::Wall {
                proof {
                    assert(in_grid(x as int, y as int) && on_border(x as int, y as int));
                    assert(index_of(x as int, y as int) == i);
                }
                return None;
            }
            i += 1;
        }
        proof {
            assert forall|x: int, y: int| in_grid(x, y) && on_border(x, y) implies cells@[index_of(
                x,
                y,
            )] == Cell::Wall by {
                let j = index_of(x, y);
                assert(j % (W as int) == x && j / (W as int) == y);
            }
        }
        Some(Grid { cells })
    }

    /// The cell at `(x, y)`, or `None` outside the grid.
    pub fn get(&self, x: isize, y: isize) -> (c: Option<Cell>)
        requires
            self.wf(),
        ensures
            c == if in_grid(x as int, y as int) {
                Some(self.at(x as int, y as int))
            } else {
                None
            },
    {
        if 0 <= x && x < W && 0 <= y && y < H {
            Some(self.cell(x, y))
        } else {
            None
        }
    }

    /// The cell at `(x, y)`, for coordinates known to lie in the grid.
    pub fn cell(&self, x: isize, y: isize) -> (c: Cell)
        requires
            self.wf(),
            in_grid(x as int, y as int),
        ensures
            c == self.at(x as int, y as int),
    {
        self.cells[(x + y * W) as usize]
    }
}

/// Generates a map from the random stream: a wall border around an interior
/// of air with sparse solid platforms. The result and the stream state left
/// behind depend on nothing but the stream state on entry.
pub fn gen_map(rand: &mut Rand) -> (grid: Grid)
    ensures
        grid@ == map_of(old(rand).0),
        final(rand).0 == seed_after_map(old(rand).0),
        grid.wf(),
        forall|x: int, y: int| interior(x, y) ==> #[trigger] grid.at(x, y) != Cell::Wall,
{
    let ghost seed = rand.0;
    let mut cells: Vec<Cell> = Vec::new();
    let mut n: usize = 0;
    while n < CELLS
        invariant
            n <= CELLS,
            cells@ =~= Seq::new(n as nat, |i: int| Cell::Air),
        decreases CELLS - n,
    {
        cells.push(Cell::Air);
        n += 1;
    }
    let mut x: isize = 0;
    while x < W
        invariant
            0 <= x <= W,
            (cells@, rand.0) == generated(seed, (x * H) as nat),
            partly_generated(cells@, x * H),
        decreases W - x,
    {
        let mut y: isize = 0;
        while y < H
            invariant
                0 <= x < W,
                0 <= y <= H,
                (cells@, rand.0) == generated(seed, (x * H + y) as nat),
                partly_generated(cells@, x * H + y),
            decreases H - y,
        {
            let ghost k = x * H + y;
            let ghost before = (cells@, rand.0);
            assert(k / (H as int) == x && k % (H as int) == y);
            if x == 0 || x == W - 1 || y == 0 || y == H - 1 {
                cells[(x + y * W) as usize] = Cell::Wall;
            } else {
                let r = rand.next() % 60;
                if r < 1 {
                    let len: isize = 2 + (rand.next() % 2) as isize;
                    let ghost base = cells@;
                    let mut u: isize = -len;
                    while u < len
                        invariant
                            interior(x as int, y as int),
                            2 <= len <= 3,
                            -len <= u <= len,
                            base.len() == CELLS,
                            cells@ =~= with_platform(base, x as int, y as int, len as int).take(
                                (y * W + x + u) as int,
                            ) + base.skip((y * W + x + u) as int),
                        decreases len - u,
                    {
                        if x + u > 0 && x + u < W - 1 {
                            cells[(x + u + y * W) as usize] = Cell::Solid;
                        }
                        u += 1;
                    }
                    assert(cells@ =~= with_platform(base, x as int, y as int, len as int));
                }
            }
            assert((cells@, rand.0) == visit(before, x as int, y as int));
            y += 1;
        }
        x += 1;
    }
    Grid { cells }
}

} // verus!
