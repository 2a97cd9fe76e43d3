use vstd::prelude::*;
use crate::cell::Cell;
use crate::world::{
    World,
    all_dead,
    axis_offset,
    flat_index,
    generations,
    lemma_index_in_grid,
    live_neighbors,
    neighbor_sample,
    neighbor_samples,
    next_generation,
    next_state,
};

verus! {

/// Position `i` of a buffer of `width * height` cells lies at row `i / width`
/// and column `i % width`, inside the grid.
proof fn lemma_position_in_grid(width: int, height: int, i: int)
    requires
        width >= 1,
        0 <= i < width * height,
    ensures
        0 <= i / width < height,
        0 <= i % width < width,
{
    vstd::arithmetic::div_mod::lemma_fundamental_div_mod(i, width);
    let (q, r) = (i / width, i % width);
    assert(0 <= q < height) by (nonlinear_arith)
        requires
            width >= 1,
            0 <= r < width,
            i == width * q + r,
            0 <= i < width * height,
    ;
}

/// The first `n` neighborhood samples of any cell of an all-dead grid add
/// up to zero.
proof fn lemma_dead_samples(cells: Seq<Cell>, width: int, height: int, row: int, col: int, n: nat)
    requires
        width >= 1,
        height >= 1,
        cells.len() == width * height,
        all_dead(cells),
        0 <= row < height,
        0 <= col < width,
    ensures
        neighbor_samples(cells, width, height, row, col, n) == 0,
    decreases n,
{
    if n > 0 {
        lemma_dead_samples(cells, width, height, row, col, (n - 1) as nat);
        let k = n - 1;
        if k != 4 {
            let r = (row + axis_offset(height, k / 3)) % height;
            let c = (col + axis_offset(width, k % 3)) % width;
            lemma_index_in_grid(width, height, r, c);
            assert(cells[flat_index(width, r, c)] == Cell::Dead);
        }
        assert(neighbor_sample(cells, width, height, row, col, k) == 0);
    }
}

/// One tick of an all-dead grid gives an all-dead grid of the same size.
proof fn lemma_dead_generation(cells: Seq<Cell>, width: int, height: int)
    requires
        width >= 1,
        height >= 1,
        cells.len() == width * height,
        all_dead(cells),
    ensures
        next_generation(cells, width, height).len() == width * height,
        all_dead(next_generation(cells, width, height)),
{
    let next = next_generation(cells, width, height);
    assert forall|i: int| 0 <= i < next.len() implies #[trigger] next[i] == Cell::Dead by {
        lemma_position_in_grid(width, height, i);
        lemma_dead_samples(cells, width, height, i / width, i % width, 9);
        assert(cells[i] == Cell::Dead);
        assert(live_neighbors(cells, width, height, i / width, i % width) == 0);
    }
}

/// A well-formed world whose cells are all dead stays all dead after any
/// number of ticks.
pub proof fn dead_world_stays_dead(world: World, n: nat)
    requires
        world.wf(),
        all_dead(world.cells@),
    ensures
        all_dead(generations(world.cells@, world.width as int, world.height as int, n)),
        generations(world.cells@, world.width as int, world.height as int, n).len()
            == world.width * world.height,
    decreases n,
{
    if n > 0 {
        dead_world_stays_dead(world, (n - 1) as nat);
        lemma_dead_generation(
            generations(world.cells@, world.width as int, world.height as int, (n - 1) as nat),
            world.width as int,
            world.height as int,
        );
    }
}

/// On a one-by-one grid every one of the eight neighborhood samples is the
/// cell itself: a live cell counts eight neighbors, a dead one none, and the
/// next generation is dead either way.
pub proof fn single_cell_world(cell: Cell)
    ensures
        live_neighbors(seq![cell], 1, 1, 0, 0) == 8 * cell.weight(),
        next_generation(seq![cell], 1, 1) == seq![Cell::Dead],
{
    let cells = seq![cell];
    assert forall|k: int| 0 <= k < 9 && k != 4 implies #[trigger] neighbor_sample(cells, 1, 1, 0, 0, k)
        == cell.weight() by {
        let r = (0 + axis_offset(1, k / 3)) % 1;
        let c = (0 + axis_offset(1, k % 3)) % 1;
        assert(r == 0 && c == 0);
    }
    assert(neighbor_sample(cells, 1, 1, 0, 0, 4) == 0);
    reveal_with_fuel(neighbor_samples, 10);
    assert(live_neighbors(cells, 1, 1, 0, 0) == 8 * cell.weight());
    assert(0int / 1 == 0 && 0int % 1 == 0);
    assert(next_state(cell, 8 * cell.weight()) == Cell::Dead);
    assert(next_generation(cells, 1, 1) =~= seq![Cell::Dead]);
}

} // verus!
