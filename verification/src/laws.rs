//! General facts about the automaton, proved once and for all: the
//! transition rule is deterministic, the grid edges do not wrap, a block is
//! a still life, and each arm of the B3/S23 rule behaves as stated.

use vstd::prelude::*;
use crate::cellul::Coordinate;
use crate::grid::Grid;

verus! {

/// Advancing a generation is deterministic: two grids with the same
/// dimensions that agree on the state of every position also agree on the
/// next state of every position.
pub proof fn lemma_update_deterministic(g1: Grid, g2: Grid)
    requires
        g1.width == g2.width,
        g1.height == g2.height,
        forall|r: int, c: int| (#[trigger] g1.spec_alive(r, c)) == g2.spec_alive(r, c),
    ensures
        forall|r: int, c: int| (#[trigger] g1.spec_next_alive(r, c)) == g2.spec_next_alive(r, c),
{
    assert forall|r: int, c: int| (#[trigger] g1.spec_next_alive(r, c)) == g2.spec_next_alive(
        r,
        c,
    ) by {
        assert(g1.spec_alive(r - 1, c - 1) == g2.spec_alive(r - 1, c - 1));
        assert(g1.spec_alive(r - 1, c) == g2.spec_alive(r - 1, c));
        assert(g1.spec_alive(r - 1, c + 1) == g2.spec_alive(r - 1, c + 1));
        assert(g1.spec_alive(r, c - 1) == g2.spec_alive(r, c - 1));
        assert(g1.spec_alive(r, c) == g2.spec_alive(r, c));
        assert(g1.spec_alive(r, c + 1) == g2.spec_alive(r, c + 1));
        assert(g1.spec_alive(r + 1, c - 1) == g2.spec_alive(r + 1, c - 1));
        assert(g1.spec_alive(r + 1, c) == g2.spec_alive(r + 1, c));
        assert(g1.spec_alive(r + 1, c + 1) == g2.spec_alive(r + 1, c + 1));
    }
}

/// The edges do not wrap: the corner `(0, 0)` of any grid at least 2 wide
/// and 2 high has exactly the three neighbours `(0, 1)`, `(1, 0)` and
/// `(1, 1)` — no neighbour on the far row or the far column.
pub proof fn lemma_corner_neighbors(grid_width: int, grid_height: int)
    requires
        grid_width >= 2,
        grid_height >= 2,
    ensures
        Coordinate::neighbor_seq(0, 0, grid_width, grid_height) == seq![
            Coordinate { row: 0, column: 1 },
            Coordinate { row: 1, column: 0 },
            Coordinate { row: 1, column: 1 },
        ],
        Coordinate::neighbor_seq(0, 0, grid_width, grid_height).len() == 3,
{
    assert(Coordinate::neighbor_seq(0, 0, grid_width, grid_height) =~= seq![
        Coordinate { row: 0, column: 1 },
        Coordinate { row: 1, column: 0 },
        Coordinate { row: 1, column: 1 },
    ]);
}

/// A 2x2 block of live cells surrounded by dead cells is a still life:
/// when the live cells of the grid are exactly the block, every position
/// keeps its state over a generation advance.
pub proof fn lemma_block_still_life(g: Grid, row0: int, column0: int)
    requires
        1 <= row0,
        row0 + 2 < g.height as int,
        1 <= column0,
        column0 + 2 < g.width as int,
        forall|r: int, c: int|
            (#[trigger] g.spec_alive(r, c)) <==> (row0 <= r < row0 + 2 && column0 <= c < column0
                + 2),
    ensures
        forall|r: int, c: int| (#[trigger] g.spec_next_alive(r, c)) == g.spec_alive(r, c),
{
    assert forall|r: int, c: int| (#[trigger] g.spec_next_alive(r, c)) == g.spec_alive(r, c) by {
        assert(g.spec_alive(r - 1, c - 1) == (row0 <= r - 1 < row0 + 2 && column0 <= c - 1
            < column0 + 2));
        assert(g.spec_alive(r - 1, c) == (row0 <= r - 1 < row0 + 2 && column0 <= c < column0 + 2));
        assert(g.spec_alive(r - 1, c + 1) == (row0 <= r - 1 < row0 + 2 && column0 <= c + 1
            < column0 + 2));
        assert(g.spec_alive(r, c - 1) == (row0 <= r < row0 + 2 && column0 <= c - 1 < column0 + 2));
        assert(g.spec_alive(r, c) == (row0 <= r < row0 + 2 && column0 <= c < column0 + 2));
        assert(g.spec_alive(r, c + 1) == (row0 <= r < row0 + 2 && column0 <= c + 1 < column0 + 2));
        assert(g.spec_alive(r + 1, c - 1) == (row0 <= r + 1 < row0 + 2 && column0 <= c - 1
            < column0 + 2));
        assert(g.spec_alive(r + 1, c) == (row0 <= r + 1 < row0 + 2 && column0 <= c < column0 + 2));
        assert(g.spec_alive(r + 1, c + 1) == (row0 <= r + 1 < row0 + 2 && column0 <= c + 1
            < column0 + 2));
    }
}

/// Underpopulation: a live cell with at most one live neighbour dies.
pub proof fn lemma_isolation_death(g: Grid, row: int, column: int)
    requires
        g.spec_alive(row, column),
        g.spec_live_neighbors(row, column) <= 1,
    ensures
        !g.spec_next_alive(row, column),
{
}

/// Overpopulation: a live cell with four or more live neighbours dies.
pub proof fn lemma_overcrowding_death(g: Grid, row: int, column: int)
    requires
        g.spec_alive(row, column),
        g.spec_live_neighbors(row, column) >= 4,
    ensures
        !g.spec_next_alive(row, column),
{
}

/// Survival: a live cell with two or three live neighbours stays alive.
pub proof fn lemma_survival(g: Grid, row: int, column: int)
    requires
        g.spec_alive(row, column),
        2 <= g.spec_live_neighbors(row, column) <= 3,
    ensures
        g.spec_next_alive(row, column),
{
}

/// Birth: a dead cell with exactly three live neighbours becomes alive.
pub proof fn lemma_birth(g: Grid, row: int, column: int)
    requires
        !g.spec_alive(row, column),
        g.spec_live_neighbors(row, column) == 3,
    ensures
        g.spec_next_alive(row, column),
{
}

/// No birth otherwise: a dead cell with any other neighbour count — two or
/// four included — stays dead.
pub proof fn lemma_no_birth(g: Grid, row: int, column: int)
    requires
        !g.spec_alive(row, column),
        g.spec_live_neighbors(row, column) != 3,
    ensures
        !g.spec_next_alive(row, column),
{
}

} // verus!
