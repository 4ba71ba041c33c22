//! The grid of the game and its generation-advance engine.
//!
//! A `Grid` owns one `Cellul` per position, stored row-major: the cell at
//! `(row, column)` sits at index `row * width + column`. Advancing one
//! generation counts the live Moore neighbours of every cell against a
//! single snapshot of the current state and applies the B3/S23 rule: a live
//! cell survives with 2 or 3 live neighbours, a dead cell is born with
//! exactly 3, every other cell is dead in the next generation.

use vstd::prelude::*;
use vstd::arithmetic::div_mod::lemma_fundamental_div_mod_converse;
use vstd::string::StringExecFns;
use crate::cellul::{Cellul, CellulState, Coordinate};

verus! {

/// The row-major index of `(row, column)` on a grid of the given width.
pub open spec fn rm_index(width: int, row: int, column: int) -> int {
    row * width + column
}

/// One when `b` holds, zero otherwise; used to add up neighbour states.
pub open spec fn b2i(b: bool) -> int {
    if b {
        1
    } else {
        0
    }
}

/// A valid position's row-major index lies within the grid's storage.
pub proof fn lemma_rm_index_bounds(width: int, height: int, r: int, c: int)
    requires
        0 <= r < height,
        0 <= c < width,
    ensures
        0 <= rm_index(width, r, c) < width * height,
{
    assert(0 <= r * width + c < width * height) by (nonlinear_arith)
        requires
            0 <= r < height,
            0 <= c < width,
    ;
}

/// Distinct valid positions have distinct row-major indices.
pub proof fn lemma_rm_index_injective(width: int, r1: int, c1: int, r2: int, c2: int)
    requires
        width > 0,
        0 <= c1 < width,
        0 <= c2 < width,
        0 <= r1,
        0 <= r2,
        rm_index(width, r1, c1) == rm_index(width, r2, c2),
    ensures
        r1 == r2,
        c1 == c2,
{
    lemma_fundamental_div_mod_converse(rm_index(width, r1, c1), width, r1, c1);
    lemma_fundamental_div_mod_converse(rm_index(width, r2, c2), width, r2, c2);
}

/// The grid of the game.
#[derive(Debug)]
pub struct Grid {
    /// All the cells, row-major.
    pub cells: Vec<Cellul>,
    /// The width of the grid.
    pub width: u32,
    /// The height of the grid.
    pub height: u32,
}

impl Grid {
    /// A well-formed grid: one cell per position, each carrying the
    /// coordinate of the slot it occupies, and a total size that fits the
    /// backing storage.
    pub open spec fn wf(self) -> bool {
        &&& self.cells@.len() == (self.width as int) * (self.height as int)
        &&& (self.width as int) * (self.height as int) <= usize::MAX as int
        &&& forall|r: int, c: int|
            Coordinate::spec_is_valid(r, c, self.width as int, self.height as int)
                ==> (#[trigger] self.cells@[rm_index(self.width as int, r, c)]).coordinate
                == (Coordinate { row: r as u32, column: c as u32 })
    }

    /// The cell at `(row, column)` is currently alive; false off the grid.
    pub open spec fn spec_alive(self, row: int, column: int) -> bool {
        &&& Coordinate::spec_is_valid(row, column, self.width as int, self.height as int)
        &&& self.cells@[rm_index(self.width as int, row, column)].spec_is_alive()
    }

    /// How many of the up-to-8 Moore neighbours of `(row, column)` are
    /// alive; positions beyond the border count as dead.
    pub open spec fn spec_live_neighbors(self, row: int, column: int) -> int {
        b2i(self.spec_alive(row - 1, column - 1)) + b2i(self.spec_alive(row - 1, column)) + b2i(
            self.spec_alive(row - 1, column + 1),
        ) + b2i(self.spec_alive(row, column - 1)) + b2i(self.spec_alive(row, column + 1)) + b2i(
            self.spec_alive(row + 1, column - 1),
        ) + b2i(self.spec_alive(row + 1, column)) + b2i(self.spec_alive(row + 1, column + 1))
    }

    /// The B3/S23 rule: whether `(row, column)` is alive one generation
    /// later, judged entirely on the current state.
    pub open spec fn spec_next_alive(self, row: int, column: int) -> bool {
        if self.spec_alive(row, column) {
            2 <= self.spec_live_neighbors(row, column) <= 3
        } else {
            self.spec_live_neighbors(row, column) == 3
        }
    }

    /// How many coordinates of `s` point at a live cell of this grid.
    pub open spec fn spec_live_count(self, s: Seq<Coordinate>) -> int
        decreases s.len(),
    {
        if s.len() == 0 {
            0
        } else {
            self.spec_live_count(s.drop_last()) + b2i(
                self.spec_alive(s.last().row as int, s.last().column as int),
            )
        }
    }

    /// Create a new grid with every cell dead.
    pub fn new(width: u32, height: u32) -> (grid: Grid)
        requires
            (width as int) * (height as int) <= usize::MAX as int,
        ensures
            grid.wf(),
            grid.width == width,
            grid.height == height,
            forall|r: int, c: int|
                Coordinate::spec_is_valid(r, c, width as int, height as int)
                    ==> !(#[trigger] grid.spec_alive(r, c)),
    {
        let ghost w = width as int;
        let ghost h = height as int;
        let mut cells: Vec<Cellul> = Vec::new();
        let mut r: u32 = 0;
        while r < height
            invariant
                r <= height,
                w == width as int,
                h == height as int,
                w * h <= usize::MAX as int,
                cells@.len() == (r as int) * w,
                forall|rr: int, cc: int|
                    0 <= rr < r as int && 0 <= cc < w ==> (#[trigger] cells@[rm_index(w, rr, cc)])
                        == (Cellul {
                        state: CellulState::DEAD,
                        coordinate: Coordinate { row: rr as u32, column: cc as u32 },
                    }),
            decreases height - r,
        {
            let mut c: u32 = 0;
            while c < width
                invariant
                    r < height,
                    c <= width,
                    w == width as int,
                    h == height as int,
                    w * h <= usize::MAX as int,
                    cells@.len() == (r as int) * w + c as int,
                    forall|rr: int, cc: int|
                        (0 <= rr < r as int && 0 <= cc < w) || (rr == r as int && 0 <= cc < c as int)
                            ==> (#[trigger] cells@[rm_index(w, rr, cc)]) == (Cellul {
                            state: CellulState::DEAD,
                            coordinate: Coordinate { row: rr as u32, column: cc as u32 },
                        }),
                decreases width - c,
            {
                cells.push(Cellul::from(Coordinate::new(r, c)));
                proof {
                    assert forall|rr: int, cc: int|
                        (0 <= rr < r as int && 0 <= cc < w) || (rr == r as int && 0 <= cc < c as int
                            + 1) implies (#[trigger] cells@[rm_index(w, rr, cc)]) == (Cellul {
                        state: CellulState::DEAD,
                        coordinate: Coordinate { row: rr as u32, column: cc as u32 },
                    }) by {
                        if rr < r as int {
                            assert(rr * w + cc < (r as int) * w + c as int) by (nonlinear_arith)
                                requires
                                    0 <= cc < w,
                                    0 <= rr < r as int,
                                    0 <= c as int,
                            ;
                        }
                    }
                }
                c += 1;
            }
            proof {
                assert((r as int + 1) * w == (r as int) * w + w) by (nonlinear_arith);
            }
            r += 1;
        }
        proof {
            assert(h * w == w * h) by (nonlinear_arith);
        }
        Grid { cells, width, height }
    }

    /// The storage index of a valid position: `row * width + column`.
    fn compute_index(&self, row: u32, column: u32) -> (index: usize)
        requires
            self.wf(),
            Coordinate::spec_is_valid(row as int, column as int, self.width as int, self.height as int),
        ensures
            index == rm_index(self.width as int, row as int, column as int),
            index < self.cells@.len(),
    {
        proof {
            assert((row as int) * (self.width as int) + (column as int) < (self.width as int)
                * (self.height as int)) by (nonlinear_arith)
                requires
                    0 <= (row as int) < self.height as int,
                    0 <= (column as int) < self.width as int,
            ;
        }
        (row as usize) * (self.width as usize) + (column as usize)
    }

    /// The cell at `(row, column)`: present exactly when the position is on
    /// the grid, absent otherwise; never a fault.
    pub fn get_cellul(&self, row: u32, column: u32) -> (cellul: Option<&Cellul>)
        requires
            self.wf(),
        ensures
            cellul is Some <==> Coordinate::spec_is_valid(
                row as int,
                column as int,
                self.width as int,
                self.height as int,
            ),
            cellul matches Some(found) ==> *found == self.cells@[rm_index(
                self.width as int,
                row as int,
                column as int,
            )] && found.coordinate == (Coordinate { row, column }),
    {
        if row < self.height && column < self.width {
            let index = self.compute_index(row, column);
            Some(&self.cells[index])
        } else {
            None
        }
    }

    /// Count the live cells among the valid Moore neighbours of
    /// `(row, column)`.
    pub fn count_alive_neighbors(&self, row: u32, column: u32) -> (count: u32)
        requires
            self.wf(),
        ensures
            count as int == self.spec_live_neighbors(row as int, column as int),
    {
        let coordinate = Coordinate::new(row, column);
        let neighbors = coordinate.get_neighboors_coords(self.width, self.height);
        proof {
            lemma_live_count_neighbors(*self, row as int, column as int);
            assert(neighbors@.len() <= 8);
        }
        let mut count: u32 = 0;
        let mut i: usize = 0;
        while i < neighbors.len()
            invariant
                self.wf(),
                neighbors@.len() <= 8,
                i <= neighbors@.len(),
                (count as int) <= i as int,
                count as int == self.spec_live_count(neighbors@.take(i as int)),
            decreases neighbors@.len() - i,
        {
            let coord = neighbors[i];
            match self.get_cellul(coord.row, coord.column) {
                Some(cellul) => {
                    if cellul.is_alive() {
                        count += 1;
                    }
                },
                None => {},
            }
            proof {
                assert(neighbors@.take(i as int + 1).drop_last() =~= neighbors@.take(i as int));
                assert(neighbors@.take(i as int + 1).last() == neighbors@[i as int]);
            }
            i += 1;
        }
        proof {
            assert(neighbors@.take(neighbors@.len() as int) =~= neighbors@);
        }
        count
    }

    /// Advance the whole grid one generation: every next state is computed
    /// from the same snapshot of the current generation, then all of them
    /// are committed together.
    pub fn update_grid(&mut self)
        requires
            old(self).wf(),
        ensures
            final(self).wf(),
            final(self).width == old(self).width,
            final(self).height == old(self).height,
            forall|r: int, c: int|
                Coordinate::spec_is_valid(r, c, old(self).width as int, old(self).height as int)
                    ==> (#[trigger] final(self).spec_alive(r, c)) == old(self).spec_next_alive(r, c),
    {
        let ghost g0 = *self;
        let ghost w = self.width as int;
        let ghost h = self.height as int;
        let mut new_cells: Vec<Cellul> = Vec::new();
        let mut r: u32 = 0;
        while r < self.height
            invariant
                *self == g0,
                g0.wf(),
                w == g0.width as int,
                h == g0.height as int,
                r <= g0.height,
                new_cells@.len() == (r as int) * w,
                forall|rr: int, cc: int|
                    0 <= rr < r as int && 0 <= cc < w ==> (#[trigger] new_cells@[rm_index(w, rr, cc)]).coordinate
                        == g0.cells@[rm_index(w, rr, cc)].coordinate && new_cells@[rm_index(
                        w,
                        rr,
                        cc,
                    )].spec_is_alive() == g0.spec_next_alive(rr, cc),
            decreases g0.height - r,
        {
            let mut c: u32 = 0;
            while c < self.width
                invariant
                    *self == g0,
                    g0.wf(),
                    w == g0.width as int,
                    h == g0.height as int,
                    r < g0.height,
                    c <= g0.width,
                    new_cells@.len() == (r as int) * w + c as int,
                    forall|rr: int, cc: int|
                        (0 <= rr < r as int && 0 <= cc < w) || (rr == r as int && 0 <= cc < c as int)
                            ==> (#[trigger] new_cells@[rm_index(w, rr, cc)]).coordinate
                            == g0.cells@[rm_index(w, rr, cc)].coordinate && new_cells@[rm_index(
                            w,
                            rr,
                            cc,
                        )].spec_is_alive() == g0.spec_next_alive(rr, cc),
                decreases g0.width - c,
            {
                let alive_neighbors = self.count_alive_neighbors(r, c);
                let index = self.compute_index(r, c);
                let current_alive = self.cells[index].is_alive();
                let coordinate = self.cells[index].coordinate;
                let next_state = if current_alive {
                    if alive_neighbors <= 1 || alive_neighbors >= 4 {
                        CellulState::DEAD
                    } else {
                        CellulState::ALIVE
                    }
                } else if alive_neighbors == 3 {
                    CellulState::ALIVE
                } else {
                    CellulState::DEAD
                };
                new_cells.push(Cellul { state: next_state, coordinate });
                proof {
                    assert forall|rr: int, cc: int|
                        (0 <= rr < r as int && 0 <= cc < w) || (rr == r as int && 0 <= cc < c as int
                            + 1) implies (#[trigger] new_cells@[rm_index(w, rr, cc)]).coordinate
                        == g0.cells@[rm_index(w, rr, cc)].coordinate && new_cells@[rm_index(
                        w,
                        rr,
                        cc,
                    )].spec_is_alive() == g0.spec_next_alive(rr, cc) by {
                        if rr < r as int {
                            assert(rr * w + cc < (r as int) * w + c as int) by (nonlinear_arith)
                                requires
                                    0 <= cc < w,
                                    0 <= rr < r as int,
                                    0 <= c as int,
                            ;
                        }
                    }
                }
                c += 1;
            }
            proof {
                assert((r as int + 1) * w == (r as int) * w + w) by (nonlinear_arith);
            }
            r += 1;
        }
        proof {
            assert(h * w == w * h) by (nonlinear_arith);
        }
        self.cells = new_cells;
    }

    /// Revive the cells named by `alive_cells`; pairs off the grid are
    /// silently skipped.
    pub fn seed(&mut self, alive_cells: &Vec<(u32, u32)>)
        requires
            old(self).wf(),
        ensures
            final(self).wf(),
            final(self).width == old(self).width,
            final(self).height == old(self).height,
            forall|r: int, c: int|
                Coordinate::spec_is_valid(r, c, old(self).width as int, old(self).height as int)
                    ==> (#[trigger] final(self).spec_alive(r, c)) == (old(self).spec_alive(r, c)
                    || alive_cells@.contains(((r as u32, c as u32)))),
    {
        let ghost g0 = *self;
        let ghost w = self.width as int;
        let ghost h = self.height as int;
        let mut i: usize = 0;
        while i < alive_cells.len()
            invariant
                self.wf(),
                g0.wf(),
                self.width == g0.width,
                self.height == g0.height,
                w == g0.width as int,
                h == g0.height as int,
                i <= alive_cells@.len(),
                forall|r: int, c: int|
                    Coordinate::spec_is_valid(r, c, w, h) ==> (#[trigger] self.spec_alive(r, c)) == (
                    g0.spec_alive(r, c) || exists|j: int|
                        0 <= j < i as int && alive_cells@[j] == ((r as u32, c as u32))),
            decreases alive_cells@.len() - i,
        {
            let ghost pre = *self;
            let (row, column) = alive_cells[i];
            if row < self.height && column < self.width {
                let index = self.compute_index(row, column);
                self.cells[index].revive_cellul();
                proof {
                    let k = rm_index(w, row as int, column as int);
                    assert(self.cells@.len() == pre.cells@.len());
                    assert(self.cells@[k].state == CellulState::ALIVE);
                    assert(self.cells@[k].coordinate == pre.cells@[k].coordinate);
                    assert(forall|j: int|
                        0 <= j < pre.cells@.len() && j != k ==> #[trigger] self.cells@[j]
                            == pre.cells@[j]);
                    assert forall|r: int, c: int|
                        Coordinate::spec_is_valid(r, c, w, h) implies (#[trigger] self.cells@[rm_index(
                        w,
                        r,
                        c,
                    )]).coordinate == (Coordinate { row: r as u32, column: c as u32 }) by {
                        lemma_rm_index_bounds(w, h, r, c);
                        if !(r == row as int && c == column as int) && rm_index(w, r, c) == k {
                            lemma_rm_index_injective(w, r, c, row as int, column as int);
                        }
                    }
                    assert forall|r: int, c: int| Coordinate::spec_is_valid(r, c, w, h) implies (
                    #[trigger] self.spec_alive(r, c)) == (g0.spec_alive(r, c) || exists|j: int|
                        0 <= j < i as int + 1 && alive_cells@[j] == ((r as u32, c as u32))) by {
                        lemma_rm_index_bounds(w, h, r, c);
                        if r == row as int && c == column as int {
                            assert(self.spec_alive(r, c));
                            assert(alive_cells@[i as int] == ((r as u32, c as u32)));
                            assert(exists|j: int|
                                0 <= j < i as int + 1 && alive_cells@[j] == ((r as u32, c as u32)));
                        } else {
                            if rm_index(w, r, c) == k {
                                lemma_rm_index_injective(w, r, c, row as int, column as int);
                            }
                            assert(self.cells@[rm_index(w, r, c)] == pre.cells@[rm_index(w, r, c)]);
                            assert(self.spec_alive(r, c) == pre.spec_alive(r, c));
                            if alive_cells@[i as int] == ((r as u32, c as u32)) {
                                assert(row as int == r && column as int == c);
                            }
                            assert(forall|j: int|
                                0 <= j < i as int + 1 && alive_cells@[j] == ((r as u32, c as u32))
                                    ==> j < i as int);
                        }
                    }
                }
            } else {
                proof {
                    assert forall|r: int, c: int| Coordinate::spec_is_valid(r, c, w, h) implies (
                    #[trigger] self.spec_alive(r, c)) == (g0.spec_alive(r, c) || exists|j: int|
                        0 <= j < i as int + 1 && alive_cells@[j] == ((r as u32, c as u32))) by {
                        if alive_cells@[i as int] == ((r as u32, c as u32)) {
                            assert(row == r as u32 && column == c as u32);
                            assert(row as int == r && column as int == c);
                        }
                        assert(forall|j: int|
                            0 <= j < i as int + 1 && alive_cells@[j] == ((r as u32, c as u32))
                                ==> j < i as int);
                    }
                }
            }
            i += 1;
        }
    }

    /// The characters of row `row`, columns `[0, column)`: `'1'` for a live
    /// cell, `'0'` for a dead one.
    pub open spec fn spec_row_render(self, row: int, column: int) -> Seq<char>
        decreases column,
    {
        if column <= 0 {
            Seq::empty()
        } else {
            self.spec_row_render(row, column - 1).push(
                if self.spec_alive(row, column - 1) {
                    '1'
                } else {
                    '0'
                },
            )
        }
    }

    /// The first `row` rendered lines, separated by single line breaks,
    /// with no trailing break.
    pub open spec fn spec_render_upto(self, row: int) -> Seq<char>
        decreases row,
    {
        if row <= 0 {
            Seq::empty()
        } else if row == 1 {
            self.spec_row_render(0, self.width as int)
        } else {
            self.spec_render_upto(row - 1).push('\n') + self.spec_row_render(row - 1, self.width as int)
        }
    }

    /// The canonical textual form of the grid: `height` lines of `width`
    /// characters each, `'1'` for alive and `'0'` for dead, row-major,
    /// separated by single line breaks. A grid with no cells renders empty.
    pub open spec fn spec_render(self) -> Seq<char> {
        if self.width == 0 {
            Seq::empty()
        } else {
            self.spec_render_upto(self.height as int)
        }
    }

    /// Render the grid as text, row by row.
    pub fn render(&self) -> (text: String)
        requires
            self.wf(),
        ensures
            text@ == self.spec_render(),
    {
        let mut text = String::new();
        if self.width > 0 {
            let mut r: u32 = 0;
            while r < self.height
                invariant
                    self.wf(),
                    self.width > 0,
                    r <= self.height,
                    text@ == self.spec_render_upto(r as int),
                decreases self.height - r,
            {
                if r > 0 {
                    text.append("\n");
                    proof {
                        reveal_strlit("\n");
                        assert(text@ =~= self.spec_render_upto(r as int).push('\n'));
                    }
                }
                let ghost row_start = text@;
                proof {
                    assert(text@ =~= row_start + self.spec_row_render(r as int, 0));
                }
                let mut c: u32 = 0;
                while c < self.width
                    invariant
                        self.wf(),
                        self.width > 0,
                        r < self.height,
                        c <= self.width,
                        row_start == (if r == 0 {
                            Seq::<char>::empty()
                        } else {
                            self.spec_render_upto(r as int).push('\n')
                        }),
                        text@ == row_start + self.spec_row_render(r as int, c as int),
                    decreases self.width - c,
                {
                    let index = self.compute_index(r, c);
                    if self.cells[index].is_alive() {
                        text.append("1");
                        proof {
                            reveal_strlit("1");
                            assert(text@ =~= row_start + self.spec_row_render(r as int, c as int + 1));
                        }
                    } else {
                        text.append("0");
                        proof {
                            reveal_strlit("0");
                            assert(text@ =~= row_start + self.spec_row_render(r as int, c as int + 1));
                        }
                    }
                    c += 1;
                }
                proof {
                    reveal_strlit("\n");
                    assert(text@ =~= self.spec_render_upto(r as int + 1));
                }
                r += 1;
            }
        }
        text
    }
}

/// Adding up live cells distributes over concatenation of coordinate lists.
proof fn lemma_live_count_append(g: Grid, a: Seq<Coordinate>, b: Seq<Coordinate>)
    ensures
        g.spec_live_count(a + b) == g.spec_live_count(a) + g.spec_live_count(b),
    decreases b.len(),
{
    if b.len() == 0 {
        assert(a + b =~= a);
    } else {
        lemma_live_count_append(g, a, b.drop_last());
        assert((a + b).drop_last() =~= a + b.drop_last());
        assert((a + b).last() == b.last());
    }
}

/// A single neighbour candidate contributes exactly the state of the cell
/// it points at, and nothing when the offset is `(0, 0)` or off the grid.
proof fn lemma_live_count_candidate(g: Grid, row: int, column: int, dy: int, dx: int)
    ensures
        g.spec_live_count(
            Coordinate::neighbor_candidate(row, column, dy, dx, g.width as int, g.height as int),
        ) == (if dy == 0 && dx == 0 {
            0
        } else {
            b2i(g.spec_alive(row + dy, column + dx))
        }),
{
    let candidate = Coordinate::neighbor_candidate(
        row,
        column,
        dy,
        dx,
        g.width as int,
        g.height as int,
    );
    if !(dy == 0 && dx == 0) && Coordinate::spec_is_valid(
        row + dy,
        column + dx,
        g.width as int,
        g.height as int,
    ) {
        let coord = Coordinate { row: (row + dy) as u32, column: (column + dx) as u32 };
        assert(candidate.len() == 1);
        assert(candidate.last() == coord);
        assert(candidate.drop_last() =~= Seq::<Coordinate>::empty());
        assert(g.spec_live_count(Seq::<Coordinate>::empty()) == 0);
        assert(coord.row as int == row + dy);
        assert(coord.column as int == column + dx);
        assert(g.spec_live_count(candidate) == b2i(g.spec_alive(row + dy, column + dx)));
    }
}

/// Counting the live cells along the clipped Moore neighbourhood equals the
/// eight-term neighbour sum.
proof fn lemma_live_count_neighbors(g: Grid, row: int, column: int)
    ensures
        g.spec_live_count(
            Coordinate::neighbor_seq(row, column, g.width as int, g.height as int),
        ) == g.spec_live_neighbors(row, column),
{
    let w = g.width as int;
    let h = g.height as int;
    let c1 = Coordinate::neighbor_candidate(row, column, -1, -1, w, h);
    let c2 = Coordinate::neighbor_candidate(row, column, -1, 0, w, h);
    let c3 = Coordinate::neighbor_candidate(row, column, -1, 1, w, h);
    let c4 = Coordinate::neighbor_candidate(row, column, 0, -1, w, h);
    let c5 = Coordinate::neighbor_candidate(row, column, 0, 1, w, h);
    let c6 = Coordinate::neighbor_candidate(row, column, 1, -1, w, h);
    let c7 = Coordinate::neighbor_candidate(row, column, 1, 0, w, h);
    let c8 = Coordinate::neighbor_candidate(row, column, 1, 1, w, h);
    lemma_live_count_append(g, c1, c2);
    lemma_live_count_append(g, c1 + c2, c3);
    lemma_live_count_append(g, c1 + c2 + c3, c4);
    lemma_live_count_append(g, c1 + c2 + c3 + c4, c5);
    lemma_live_count_append(g, c1 + c2 + c3 + c4 + c5, c6);
    lemma_live_count_append(g, c1 + c2 + c3 + c4 + c5 + c6, c7);
    lemma_live_count_append(g, c1 + c2 + c3 + c4 + c5 + c6 + c7, c8);
    lemma_live_count_candidate(g, row, column, -1, -1);
    lemma_live_count_candidate(g, row, column, -1, 0);
    lemma_live_count_candidate(g, row, column, -1, 1);
    lemma_live_count_candidate(g, row, column, 0, -1);
    lemma_live_count_candidate(g, row, column, 0, 1);
    lemma_live_count_candidate(g, row, column, 1, -1);
    lemma_live_count_candidate(g, row, column, 1, 0);
    lemma_live_count_candidate(g, row, column, 1, 1);
}

} // verus!
