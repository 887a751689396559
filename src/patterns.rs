//! How well-known patterns evolve under the rule of life.

use vstd::prelude::*;
use crate::board::{alive_in, in_grid, neighbour_count, next_alive, CELL_COUNT};

verus! {

/// With a single alive cell on the grid, that cell has no alive neighbour
/// and each of the eight cells around it has exactly one.
pub proof fn lemma_single_cell_neighbours(g: Seq<bool>, x: int, y: int)
    requires
        g.len() == CELL_COUNT,
        in_grid(x, y),
        forall|a: int, b: int| #[trigger] alive_in(g, a, b) == (a == x && b == y),
    ensures
        neighbour_count(g, x, y) == 0,
        forall|dx: int, dy: int|
            -1 <= dx <= 1 && -1 <= dy <= 1 && (dx, dy) != (0int, 0int) ==> #[trigger] neighbour_count(
                g,
                x + dx,
                y + dy,
            ) == 1,
{
}

/// A horizontal bar of three cells, alone on the grid and with room above and
/// below, turns into a vertical bar of three through the same middle cell:
/// every cell is computed from the bar as it was.
pub proof fn lemma_blinker(g: Seq<bool>, x: int, y: int)
    requires
        g.len() == CELL_COUNT,
        in_grid(x - 1, y - 1),
        in_grid(x + 1, y + 1),
        forall|a: int, b: int| #[trigger] alive_in(g, a, b) == (b == y && x - 1 <= a <= x + 1),
    ensures
        forall|a: int, b: int|
            (in_grid(a, b) && #[trigger] next_alive(g, a, b)) == (a == x && y - 1 <= b <= y + 1),
{
    reveal(next_alive);
}

/// A two by two block of cells, alone on the grid, stays as it is.
pub proof fn lemma_block(g: Seq<bool>, x: int, y: int)
    requires
        g.len() == CELL_COUNT,
        in_grid(x, y),
        in_grid(x + 1, y + 1),
        forall|a: int, b: int|
            #[trigger] alive_in(g, a, b) == (x <= a <= x + 1 && y <= b <= y + 1),
    ensures
        forall|a: int, b: int|
            (in_grid(a, b) && #[trigger] next_alive(g, a, b)) == alive_in(g, a, b),
{
    reveal(next_alive);
}

} // verus!
