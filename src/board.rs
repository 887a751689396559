//! The grid of cells and the rule that advances it by one generation.

use vstd::prelude::*;
use crate::screen::{GRID_HEIGHT, GRID_WIDTH};

verus! {

/// Number of cells of the grid.
pub const CELL_COUNT: usize = GRID_WIDTH * GRID_HEIGHT;

/// Whether `(x, y)` lies on the grid.
pub open spec fn in_grid(x: int, y: int) -> bool {
    0 <= x < GRID_WIDTH && 0 <= y < GRID_HEIGHT
}

/// Position of cell `(x, y)` in the column-major buffer.
pub open spec fn index_of(x: int, y: int) -> int {
    x * GRID_HEIGHT + y
}

/// Whether cell `(x, y)` is alive in the buffer `g`; every cell off the grid
/// is dead.
pub open spec fn alive_in(g: Seq<bool>, x: int, y: int) -> bool {
    in_grid(x, y) && g[index_of(x, y)]
}

/// One if cell `(x, y)` is alive in `g`, else zero.
pub open spec fn alive_count(g: Seq<bool>, x: int, y: int) -> int {
    if alive_in(g, x, y) { 1 } else { 0 }
}

/// Number of alive cells among the eight that surround `(x, y)`.
pub open spec fn neighbour_count(g: Seq<bool>, x: int, y: int) -> int {
    alive_count(g, x - 1, y - 1) + alive_count(g, x - 1, y) + alive_count(g, x - 1, y + 1)
        + alive_count(g, x, y - 1) + alive_count(g, x, y + 1)
        + alive_count(g, x + 1, y - 1) + alive_count(g, x + 1, y) + alive_count(g, x + 1, y + 1)
}

/// The rule of life: an alive cell survives with two or three alive
/// neighbours, a dead cell is born with exactly three.
#[verifier::opaque]
pub open spec fn next_alive(g: Seq<bool>, x: int, y: int) -> bool {
    let n = neighbour_count(g, x, y);
    if alive_in(g, x, y) { n == 2 || n == 3 } else { n == 3 }
}

/// Every cell off the grid is dead, whatever the buffer holds.
pub proof fn lemma_off_grid_dead(board: Board, x: int, y: int)
    requires
        board.wf(),
        !in_grid(x, y),
    ensures
        !board.alive(x, y),
{
}

/// An alive cell with no alive neighbour dies in the next generation.
pub proof fn lemma_isolated_cell_dies(g: Seq<bool>, x: int, y: int)
    requires
        g.len() == CELL_COUNT,
        alive_in(g, x, y),
        neighbour_count(g, x, y) == 0,
    ensures
        !next_alive(g, x, y),
{
    reveal(next_alive);
}

/// A dead cell with exactly three alive neighbours comes alive in the next
/// generation.
pub proof fn lemma_birth(g: Seq<bool>, x: int, y: int)
    requires
        g.len() == CELL_COUNT,
        !alive_in(g, x, y),
        neighbour_count(g, x, y) == 3,
    ensures
        next_alive(g, x, y),
{
    reveal(next_alive);
}

/// A grid of `GRID_WIDTH` by `GRID_HEIGHT` cells, each alive or dead.
pub struct Board {
    cells: Vec<bool>,
}

impl View for Board {
    type V = Seq<bool>;

    /// The cells, column after column: cell `(x, y)` stands at `index_of(x, y)`.
    closed spec fn view(&self) -> Seq<bool> {
        self.cells@
    }
}

impl Board {
    /// The buffer holds exactly one flag per cell.
    pub open spec fn wf(&self) -> bool {
        self@.len() == CELL_COUNT
    }

    /// Whether cell `(x, y)` is alive.
    pub open spec fn alive(&self, x: int, y: int) -> bool {
        alive_in(self@, x, y)
    }

    /// A board with every cell dead.
    pub fn new() -> (r: Board)
        ensures
            r.wf(),
            forall|x: int, y: int| !r.alive(x, y),
    {
        let mut cells: Vec<bool> = Vec::new();
        let mut i: usize = 0;
        while i < CELL_COUNT
            invariant
                i <= CELL_COUNT,
                cells@.len() == i,
                forall|j: int| 0 <= j < i ==> !cells@[j],
            decreases CELL_COUNT - i,
        {
            cells.push(false);
            i = i + 1;
        }
        Board { cells }
    }

    /// Whether cell `(x, y)` is alive; every cell off the grid is dead.
    pub fn cell(&self, x: usize, y: usize) -> (r: bool)
        requires
            self.wf(),
        ensures
            r == self.alive(x as int, y as int),
    {
        x < GRID_WIDTH && y < GRID_HEIGHT && self.cells[x * GRID_HEIGHT + y]
    }

    /// Makes cell `(x, y)` alive or dead, leaving every other cell as it was.
    pub fn set_cell(&mut self, x: usize, y: usize, alive: bool)
        requires
            old(self).wf(),
            x < GRID_WIDTH,
            y < GRID_HEIGHT,
        ensures
            final(self).wf(),
            final(self)@ == old(self)@.update(index_of(x as int, y as int), alive),
            final(self).alive(x as int, y as int) == alive,
            forall|a: int, b: int|
                (a, b) != (x as int, y as int) ==> final(self).alive(a, b) == old(self).alive(a, b),
    {
        self.cells.set(x * GRID_HEIGHT + y, alive);
    }

    /// One if the cell at offset `(dx, dy)` from `(x, y)` is alive, else zero.
    fn alive_at_offset(&self, x: usize, y: usize, dx: i8, dy: i8) -> (r: u8)
        requires
            self.wf(),
            -1 <= dx <= 1,
            -1 <= dy <= 1,
        ensures
            r as int == alive_count(self@, x + dx, y + dy),
    {
        let nx: usize = if dx < 0 {
            if x == 0 {
                return 0;
            }
            x - 1
        } else if dx > 0 {
            if x >= GRID_WIDTH {
                return 0;
            }
            x + 1
        } else {
            x
        };
        let ny: usize = if dy < 0 {
            if y == 0 {
                return 0;
            }
            y - 1
        } else if dy > 0 {
            if y >= GRID_HEIGHT {
                return 0;
            }
            y + 1
        } else {
            y
        };
        if self.cell(nx, ny) {
            1
        } else {
            0
        }
    }

    /// Number of alive cells among the eight that surround `(x, y)`; cells
    /// off the grid count as dead.
    pub fn neighbours(&self, x: usize, y: usize) -> (r: u8)
        requires
            self.wf(),
        ensures
            r as int == neighbour_count(self@, x as int, y as int),
            r <= 8,
    {
        self.alive_at_offset(x, y, -1, -1) + self.alive_at_offset(x, y, -1, 0)
            + self.alive_at_offset(x, y, -1, 1) + self.alive_at_offset(x, y, 0, -1)
            + self.alive_at_offset(x, y, 0, 1) + self.alive_at_offset(x, y, 1, -1)
            + self.alive_at_offset(x, y, 1, 0) + self.alive_at_offset(x, y, 1, 1)
    }

    /// State of cell `(x, y)` in the next generation.
    fn next_cell(&self, x: usize, y: usize) -> (r: bool)
        requires
            self.wf(),
            x < GRID_WIDTH,
            y < GRID_HEIGHT,
        ensures
            r == next_alive(self@, x as int, y as int),
    {
        proof {
            reveal(next_alive);
        }
        let alive = self.cells[x * GRID_HEIGHT + y];
        let n = self.neighbours(x, y);
        if alive {
            n == 2 || n == 3
        } else {
            n == 3
        }
    }

    /// Replaces every cell by its state in the next generation, each computed
    /// from the cells as they were before the call.
    pub fn advance_generation(&mut self)
        requires
            old(self).wf(),
        ensures
            final(self).wf(),
            forall|x: int, y: int|
                final(self).alive(x, y) == (in_grid(x, y) && next_alive(old(self)@, x, y)),
    {
        let ghost g = self@;
        let mut next: Vec<bool> = Vec::with_capacity(CELL_COUNT);
        let mut x: usize = 0;
        while x < GRID_WIDTH
            invariant
                self@ == g,
                self.wf(),
                x <= GRID_WIDTH,
                next@.len() == x * GRID_HEIGHT,
                forall|a: int, b: int|
                    in_grid(a, b) && index_of(a, b) < next@.len() ==> next@[index_of(a, b)]
                        == next_alive(g, a, b),
            decreases GRID_WIDTH - x,
        {
            let mut y: usize = 0;
            while y < GRID_HEIGHT
                invariant
                    self@ == g,
                    self.wf(),
                    x < GRID_WIDTH,
                    y <= GRID_HEIGHT,
                    next@.len() == x * GRID_HEIGHT + y,
                    forall|a: int, b: int|
                        in_grid(a, b) && index_of(a, b) < next@.len() ==> next@[index_of(a, b)]
                            == next_alive(g, a, b),
                decreases GRID_HEIGHT - y,
            {
                let survives = self.next_cell(x, y);
                next.push(survives);
                y = y + 1;
            }
            x = x + 1;
        }
        self.cells = next;
    }
}

} // verus!
