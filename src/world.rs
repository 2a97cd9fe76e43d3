use vstd::prelude::*;
use crate::cell::Cell;

verus! {

/// Offset `k` (0, 1 or 2) of the three row or column offsets of a neighborhood
/// on an axis of length `n`: `n - 1` stands for one step back, then no step,
/// then one step forward.
pub open spec fn axis_offset(n: int, k: int) -> int {
    if k == 0 {
        n - 1
    } else if k == 1 {
        0
    } else {
        1
    }
}

/// Flat position of `(row, col)` in a row-major buffer of rows `width` long.
pub open spec fn flat_index(width: int, row: int, col: int) -> int {
    row * width + col
}

/// Sample `k` (0 to 8) of the 3x3 neighborhood of `(row, col)` on the torus:
/// row offset `k / 3` against column offset `k % 3`. The middle sample is the
/// cell itself and counts nothing.
pub open spec fn neighbor_sample(
    cells: Seq<Cell>,
    width: int,
    height: int,
    row: int,
    col: int,
    k: int,
) -> int {
    if k == 4 {
        0
    } else {
        let r = (row + axis_offset(height, k / 3)) % height;
        let c = (col + axis_offset(width, k % 3)) % width;
        cells[flat_index(width, r, c)].weight()
    }
}

/// Sum of the first `n` samples of the neighborhood of `(row, col)`.
pub open spec fn neighbor_samples(
    cells: Seq<Cell>,
    width: int,
    height: int,
    row: int,
    col: int,
    n: nat,
) -> int
    decreases n,
{
    if n == 0 {
        0
    } else {
        let before = neighbor_samples(cells, width, height, row, col, (n - 1) as nat);
        before + neighbor_sample(cells, width, height, row, col, n - 1)
    }
}

/// Live cells among the eight toroidally wrapped neighbors of `(row, col)`.
/// On an axis of length one or two the same cell is sampled more than once,
/// and counted each time.
pub open spec fn live_neighbors(cells: Seq<Cell>, width: int, height: int, row: int, col: int) -> int {
    neighbor_samples(cells, width, height, row, col, 9)
}

/// The rule: a live cell with two live neighbors survives, any cell with
/// three is alive next, every other cell is dead next.
pub open spec fn next_state(state: Cell, neighbors: int) -> Cell {
    if neighbors == 3 || (state == Cell::Alive && neighbors == 2) {
        Cell::Alive
    } else {
        Cell::Dead
    }
}

/// The generation after `cells`: each cell's next state, from its current
/// state and its neighbors in `cells`.
pub open spec fn next_generation(cells: Seq<Cell>, width: int, height: int) -> Seq<Cell> {
    Seq::new(
        (width * height) as nat,
        |i: int| next_state(cells[i], live_neighbors(cells, width, height, i / width, i % width)),
    )
}

/// The generation `n` ticks after `cells`.
pub open spec fn generations(cells: Seq<Cell>, width: int, height: int, n: nat) -> Seq<Cell>
    decreases n,
{
    if n == 0 {
        cells
    } else {
        next_generation(generations(cells, width, height, (n - 1) as nat), width, height)
    }
}

/// Every cell of `cells` is dead.
pub open spec fn all_dead(cells: Seq<Cell>) -> bool {
    forall|i: int| 0 <= i < cells.len() ==> #[trigger] cells[i] == Cell::Dead
}

/// The state of the cell at linear position `i` in the starting pattern:
/// alive where `i` is a multiple of 2 or of 7.
pub open spec fn seed_state(i: int) -> Cell {
    if i % 2 == 0 || i % 7 == 0 {
        Cell::Alive
    } else {
        Cell::Dead
    }
}

/// A position inside a `width` by `height` grid lies inside its buffer.
pub proof fn lemma_index_in_grid(width: int, height: int, row: int, col: int)
    requires
        0 <= row < height,
        0 <= col < width,
    ensures
        0 <= flat_index(width, row, col) < width * height,
{
    assert(0 <= row * width + col < width * height) by (nonlinear_arith)
        requires
            0 <= row < height,
            0 <= col < width,
    ;
}

/// A grid of cells on a torus, stored row by row in one flat buffer.
pub struct World {
    pub cells: Vec<Cell>,
    pub width: usize,
    pub height: usize,
}

/// `(x + d) % n` for `x < n`, computed without overflow.
fn wrapped_add(x: usize, d_in: usize, n: usize) -> (r: usize)
    requires
        x < n,
    ensures
        r == (x + d_in) % (n as int),
{
    let d = d_in % n;
    proof {
        let (xi, di, ni) = (x as int, d as int, n as int);
        vstd::arithmetic::div_mod::lemma_small_mod(x as nat, n as nat);
        vstd::arithmetic::div_mod::lemma_add_mod_noop(xi, d_in as int, ni);
        vstd::arithmetic::div_mod::lemma_mod_twice(d_in as int, ni);
        if xi + di >= ni {
            vstd::arithmetic::div_mod::lemma_fundamental_div_mod_converse(xi + di, ni, 1, xi + di - ni);
        } else {
            vstd::arithmetic::div_mod::lemma_small_mod((xi + di) as nat, n as nat);
        }
    }
    if d >= n - x {
        d - (n - x)
    } else {
        x + d
    }
}

impl World {
    /// The grid is usable: both sides at least one cell, and one buffer entry
    /// per cell.
    pub open spec fn wf(&self) -> bool {
        &&& self.width >= 1
        &&& self.height >= 1
        &&& self.cells@.len() == self.width * self.height
    }

    /// A `width` by `height` grid in the starting pattern.
    fn seeded(width: usize, height: usize) -> (r: World)
        requires
            width >= 1,
            height >= 1,
            width * height <= usize::MAX,
        ensures
            r.wf(),
            r.width == width,
            r.height == height,
            r.cells@ == Seq::new((width * height) as nat, |i: int| seed_state(i)),
    {
        let size = width * height;
        let mut cells: Vec<Cell> = Vec::new();
        let mut i: usize = 0;
        while i < size
            invariant
                i <= size,
                cells@.len() == i,
                forall|k: int| 0 <= k < i ==> #[trigger] cells@[k] == seed_state(k),
            decreases size - i,
        {
            let cell = if i % 2 == 0 || i % 7 == 0 {
                Cell::Alive
            } else {
                Cell::Dead
            };
            cells.push(cell);
            i += 1;
        }
        assert(cells@ =~= Seq::new((width * height) as nat, |i: int| seed_state(i)));
        World { cells, width, height }
    }

    /// The standard world: 100 by 100 cells in the starting pattern.
    pub fn new() -> (r: World)
        ensures
            r.wf(),
            r.width == 100,
            r.height == 100,
            r.cells@ == Seq::new(10000, |i: int| seed_state(i)),
    {
        World::seeded(100, 100)
    }

    /// A `width` by `height` grid in the starting pattern; `None` where a
    /// side is zero or the grid has more cells than a `usize` can count.
    pub fn with_size(width: usize, height: usize) -> (r: Option<World>)
        ensures
            r is None <==> (width == 0 || height == 0 || width * height > usize::MAX),
            r matches Some(world) ==> {
                &&& world.wf()
                &&& world.width == width
                &&& world.height == height
                &&& world.cells@ == Seq::new((width * height) as nat, |i: int| seed_state(i))
            },
    {
        if width == 0 || height == 0 {
            return None;
        }
        match width.checked_mul(height) {
            Some(_) => Some(World::seeded(width, height)),
            None => None,
        }
    }

    /// A `width` by `height` grid holding `cells`, row by row; `None` where a
    /// side is zero or `cells` does not hold one entry per cell.
    pub fn from_cells(width: usize, height: usize, cells: Vec<Cell>) -> (r: Option<World>)
        ensures
            r is None <==> (width == 0 || height == 0 || cells@.len() != width * height),
            r matches Some(world) ==> {
                &&& world.wf()
                &&& world.width == width
                &&& world.height == height
                &&& world.cells@ == cells@
            },
    {
        if width == 0 || height == 0 {
            return None;
        }
        match width.checked_mul(height) {
            Some(size) => {
                if cells.len() == size {
                    Some(World { cells, width, height })
                } else {
                    None
                }
            },
            None => {
                assert(cells@.len() == cells.len());
                None
            },
        }
    }

    /// Flat position of the cell at `(row, col)`.
    pub fn get_cell_index(&self, row: usize, col: usize) -> (r: usize)
        requires
            self.wf(),
            row < self.height,
            col < self.width,
        ensures
            r == flat_index(self.width as int, row as int, col as int),
            r < self.cells@.len(),
    {
        proof {
            lemma_index_in_grid(self.width as int, self.height as int, row as int, col as int);
            assert(self.cells@.len() == self.cells.len());
            assert(0 <= row * self.width <= row * self.width + col) by (nonlinear_arith)
                requires
                    row >= 0,
                    self.width >= 0,
                    col >= 0,
            ;
        }
        (row * self.width) + col
    }

    /// Number of live cells among the eight toroidally wrapped neighbors of
    /// `(row, col)`; a cell sampled more than once on a narrow grid counts
    /// each time.
    pub fn get_live_neighbor_count(&self, row: usize, col: usize) -> (r: u8)
        requires
            self.wf(),
            row < self.height,
            col < self.width,
        ensures
            r == live_neighbors(self.cells@, self.width as int, self.height as int, row as int, col as int),
            r <= 8,
    {
        let ghost (cells, w, h) = (self.cells@, self.width as int, self.height as int);
        let mut count: u8 = 0;

        // `len - 1` steps back without going below zero; the sum is taken
        // modulo the length of the axis.
        let d_rows: [usize; 3] = [self.height - 1, 0, 1];
        let d_cols: [usize; 3] = [self.width - 1, 0, 1];

        let mut i: usize = 0;
        while i < 3
            invariant
                self.wf(),
                row < self.height,
                col < self.width,
                cells == self.cells@,
                w == self.width,
                h == self.height,
                i <= 3,
                forall|k: int| 0 <= k < 3 ==> d_rows@[k] == #[trigger] axis_offset(h, k),
                forall|k: int| 0 <= k < 3 ==> d_cols@[k] == #[trigger] axis_offset(w, k),
                count == neighbor_samples(cells, w, h, row as int, col as int, (3 * i) as nat),
                count + (if i >= 2 { 1int } else { 0 }) <= 3 * i,
            decreases 3 - i,
        {
            let mut j: usize = 0;
            while j < 3
                invariant
                    self.wf(),
                    row < self.height,
                    col < self.width,
                    cells == self.cells@,
                    w == self.width,
                    h == self.height,
                    i < 3,
                    j <= 3,
                    forall|k: int| 0 <= k < 3 ==> d_rows@[k] == #[trigger] axis_offset(h, k),
                    forall|k: int| 0 <= k < 3 ==> d_cols@[k] == #[trigger] axis_offset(w, k),
                    count == neighbor_samples(cells, w, h, row as int, col as int, (3 * i + j) as nat),
                    count + (if 3 * i + j > 4 { 1int } else { 0 }) <= 3 * i + j,
                decreases 3 - j,
            {
                let ghost k = 3 * i + j;
                proof {
                    vstd::arithmetic::div_mod::lemma_fundamental_div_mod_converse(k as int, 3, i as int, j as int);
                    assert(d_rows@[i as int] == axis_offset(h, i as int));
                    assert(d_cols@[j as int] == axis_offset(w, j as int));
                }
                if !(i == 1 && j == 1) {
                    let new_row = wrapped_add(row, d_rows[i], self.height);
                    let new_col = wrapped_add(col, d_cols[j], self.width);
                    let index = self.get_cell_index(new_row, new_col);
                    if self.cells[index] == Cell::Alive {
                        count += 1;
                    }
                }
                j += 1;
            }
            i += 1;
        }
        count
    }
    /// Advances the grid by one generation. Every next state is decided from
    /// the buffer as it stood before the call: the new generation is built in
    /// a buffer of its own and then replaces the old one.
    pub fn tick(&mut self)
        requires
            old(self).wf(),
        ensures
            final(self).wf(),
            final(self).width == old(self).width,
            final(self).height == old(self).height,
            final(self).cells@ == next_generation(
                old(self).cells@,
                old(self).width as int,
                old(self).height as int,
            ),
    {
        let ghost (cells, w, h) = (self.cells@, self.width as int, self.height as int);
        let mut next_cells: Vec<Cell> = Vec::new();

        let mut row: usize = 0;
        while row < self.height
            invariant
                self.wf(),
                cells == self.cells@,
                w == self.width,
                h == self.height,
                row <= h,
                next_cells@.len() == row * w,
                forall|k: int|
                    0 <= k < next_cells@.len() ==> #[trigger] next_cells@[k] == next_state(
                        cells[k],
                        live_neighbors(cells, w, h, k / w, k % w),
                    ),
            decreases h - row,
        {
            let mut col: usize = 0;
            while col < self.width
                invariant
                    self.wf(),
                    cells == self.cells@,
                    w == self.width,
                    h == self.height,
                    row < h,
                    col <= w,
                    next_cells@.len() == row * w + col,
                    forall|k: int|
                        0 <= k < next_cells@.len() ==> #[trigger] next_cells@[k] == next_state(
                            cells[k],
                            live_neighbors(cells, w, h, k / w, k % w),
                        ),
                decreases w - col,
            {
                let index = self.get_cell_index(row, col);
                let neighbors = self.get_live_neighbor_count(row, col);
                let state = self.cells[index];
                proof {
                    vstd::arithmetic::div_mod::lemma_fundamental_div_mod_converse(
                        index as int,
                        w,
                        row as int,
                        col as int,
                    );
                }

                let next = if neighbors == 3 || (state == Cell::Alive && neighbors == 2) {
                    Cell::Alive
                } else {
                    Cell::Dead
                };

                next_cells.push(next);
                col += 1;
            }
            proof {
                assert(row * w + w == (row + 1) * w) by (nonlinear_arith);
            }
            row += 1;
        }
        assert(next_cells@.len() == w * h) by (nonlinear_arith)
            requires
                next_cells@.len() == row * w,
                row == h,
        ;
        assert(next_cells@ =~= next_generation(cells, w, h));
        self.cells = next_cells;
    }
}

} // verus!
