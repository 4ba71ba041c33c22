//! Cells and their coordinates.
//!
//! A `Coordinate` names a position on a grid; a `Cellul` is one automaton
//! unit: a fixed coordinate together with a mutable alive/dead state.

use vstd::prelude::*;

verus! {

/// The position of a `Cellul` inside a grid: a row and a column, both
/// counted from zero.
#[derive(Debug, Copy, Clone, PartialEq, Eq, Structural)]
pub struct Coordinate {
    /// The row number.
    pub row: u32,
    /// The column number.
    pub column: u32,
}

impl Coordinate {
    /// A position lies on a grid exactly when its column is within
    /// `[0, grid_width)` and its row within `[0, grid_height)`.
    pub open spec fn spec_is_valid(row: int, column: int, grid_width: int, grid_height: int) -> bool {
        &&& 0 <= column < grid_width
        &&& 0 <= row < grid_height
    }

    /// The candidate neighbour reached from `(row, column)` by the offset
    /// `(dy, dx)`: a singleton when it lies on the grid and the offset is
    /// not `(0, 0)`, and empty otherwise. Edges do not wrap, so a candidate
    /// beyond the border is simply absent.
    pub open spec fn neighbor_candidate(
        row: int,
        column: int,
        dy: int,
        dx: int,
        grid_width: int,
        grid_height: int,
    ) -> Seq<Coordinate> {
        if !(dy == 0 && dx == 0) && Self::spec_is_valid(row + dy, column + dx, grid_width, grid_height) {
            seq![Coordinate { row: (row + dy) as u32, column: (column + dx) as u32 }]
        } else {
            Seq::empty()
        }
    }

    /// The Moore neighbourhood of `(row, column)` clipped to the grid, in
    /// row-major offset order: up to 8 coordinates, fewer along the edges.
    pub open spec fn neighbor_seq(row: int, column: int, grid_width: int, grid_height: int) -> Seq<Coordinate> {
        Self::neighbor_candidate(row, column, -1, -1, grid_width, grid_height)
            + Self::neighbor_candidate(row, column, -1, 0, grid_width, grid_height)
            + Self::neighbor_candidate(row, column, -1, 1, grid_width, grid_height)
            + Self::neighbor_candidate(row, column, 0, -1, grid_width, grid_height)
            + Self::neighbor_candidate(row, column, 0, 1, grid_width, grid_height)
            + Self::neighbor_candidate(row, column, 1, -1, grid_width, grid_height)
            + Self::neighbor_candidate(row, column, 1, 0, grid_width, grid_height)
            + Self::neighbor_candidate(row, column, 1, 1, grid_width, grid_height)
    }

    /// Create a new `Coordinate`.
    pub fn new(row: u32, column: u32) -> (coordinate: Coordinate)
        ensures
            coordinate == (Coordinate { row, column }),
    {
        Coordinate { row, column }
    }

    /// Check whether `(row, column)` is a valid position on a grid of the
    /// given width and height.
    pub fn is_valid(row: i32, column: i32, grid_width: u32, grid_height: u32) -> (valid: bool)
        ensures
            valid == Self::spec_is_valid(row as int, column as int, grid_width as int, grid_height as int),
    {
        if row < 0 || column < 0 {
            false
        } else {
            (column as u32) < grid_width && (row as u32) < grid_height
        }
    }

    /// Append to `coords` the candidate neighbour for one offset, when it
    /// lies on the grid.
    fn push_neighbor(
        &self,
        coords: &mut Vec<Coordinate>,
        dy: i64,
        dx: i64,
        grid_width: u32,
        grid_height: u32,
    )
        requires
            -1 <= dy <= 1,
            -1 <= dx <= 1,
        ensures
            final(coords)@ == old(coords)@ + Self::neighbor_candidate(
                self.row as int,
                self.column as int,
                dy as int,
                dx as int,
                grid_width as int,
                grid_height as int,
            ),
    {
        let ghost candidate = Self::neighbor_candidate(
            self.row as int,
            self.column as int,
            dy as int,
            dx as int,
            grid_width as int,
            grid_height as int,
        );
        let new_row: i64 = self.row as i64 + dy;
        let new_column: i64 = self.column as i64 + dx;
        if !(dy == 0 && dx == 0) && new_row >= 0 && new_row < grid_height as i64 && new_column >= 0
            && new_column < grid_width as i64 {
            coords.push(Coordinate { row: new_row as u32, column: new_column as u32 });
            proof {
                assert(coords@ =~= old(coords)@ + candidate);
            }
        } else {
            proof {
                assert(coords@ =~= old(coords)@ + candidate);
            }
        }
    }

    /// The valid neighbouring coordinates of this position on a grid of the
    /// given width and height: the Moore neighbourhood, without wrapping.
    pub fn get_neighboors_coords(&self, grid_width: u32, grid_height: u32) -> (coords: Vec<Coordinate>)
        ensures
            coords@ == Self::neighbor_seq(
                self.row as int,
                self.column as int,
                grid_width as int,
                grid_height as int,
            ),
    {
        let ghost r = self.row as int;
        let ghost c = self.column as int;
        let ghost w = grid_width as int;
        let ghost h = grid_height as int;
        let mut coords: Vec<Coordinate> = Vec::new();
        self.push_neighbor(&mut coords, -1, -1, grid_width, grid_height);
        self.push_neighbor(&mut coords, -1, 0, grid_width, grid_height);
        self.push_neighbor(&mut coords, -1, 1, grid_width, grid_height);
        self.push_neighbor(&mut coords, 0, -1, grid_width, grid_height);
        self.push_neighbor(&mut coords, 0, 1, grid_width, grid_height);
        self.push_neighbor(&mut coords, 1, -1, grid_width, grid_height);
        self.push_neighbor(&mut coords, 1, 0, grid_width, grid_height);
        self.push_neighbor(&mut coords, 1, 1, grid_width, grid_height);
        proof {
            assert(coords@ =~= Self::neighbor_seq(r, c, w, h));
        }
        coords
    }
}

impl From<(u32, u32)> for Coordinate {
    /// Build the coordinate `(row, column)` from the pair `(tuple.0, tuple.1)`.
    fn from(tuple: (u32, u32)) -> (coordinate: Coordinate) {
        Coordinate { row: tuple.0, column: tuple.1 }
    }
}

impl vstd::std_specs::convert::FromSpecImpl<(u32, u32)> for Coordinate {
    open spec fn obeys_from_spec() -> bool {
        true
    }

    open spec fn from_spec(tuple: (u32, u32)) -> Coordinate {
        Coordinate { row: tuple.0, column: tuple.1 }
    }
}

/// The state of a `Cellul`.
#[derive(Debug, Copy, Clone, PartialEq, Eq, Structural)]
pub enum CellulState {
    /// The `Cellul` is alive.
    ALIVE,
    /// The `Cellul` is dead.
    DEAD,
}

/// One automaton unit: a fixed position and a mutable alive/dead state.
#[derive(Debug, Copy, Clone)]
pub struct Cellul {
    /// The current state.
    pub state: CellulState,
    /// The position, fixed at creation.
    pub coordinate: Coordinate,
}

impl Cellul {
    /// Whether the cell is currently alive.
    pub open spec fn spec_is_alive(self) -> bool {
        self.state is ALIVE
    }

    /// The current state of the cell.
    pub fn get_state(&self) -> (state: CellulState)
        ensures
            state == self.state,
    {
        self.state
    }

    /// True exactly when the state is `ALIVE`.
    pub fn is_alive(&self) -> (alive: bool)
        ensures
            alive == self.spec_is_alive(),
    {
        match self.state {
            CellulState::ALIVE => true,
            CellulState::DEAD => false,
        }
    }

    /// Overwrite the state unconditionally; the coordinate never changes.
    pub fn update_state(&mut self, new_state: CellulState)
        ensures
            final(self).state == new_state,
            final(self).coordinate == old(self).coordinate,
    {
        self.state = new_state;
    }

    /// Set the state to `ALIVE`.
    pub fn revive_cellul(&mut self)
        ensures
            final(self).state == CellulState::ALIVE,
            final(self).coordinate == old(self).coordinate,
    {
        self.state = CellulState::ALIVE;
    }

    /// Set the state to `DEAD`.
    pub fn kill_cellul(&mut self)
        ensures
            final(self).state == CellulState::DEAD,
            final(self).coordinate == old(self).coordinate,
    {
        self.state = CellulState::DEAD;
    }
}

impl From<Coordinate> for Cellul {
    /// A fresh cell at the given position, dead.
    fn from(coord: Coordinate) -> (cellul: Cellul) {
        Cellul { state: CellulState::DEAD, coordinate: coord }
    }
}

impl vstd::std_specs::convert::FromSpecImpl<Coordinate> for Cellul {
    open spec fn obeys_from_spec() -> bool {
        true
    }

    open spec fn from_spec(coord: Coordinate) -> Cellul {
        Cellul { state: CellulState::DEAD, coordinate: coord }
    }
}

impl From<(u32, u32)> for Cellul {
    /// A fresh dead cell at the coordinate built from the pair.
    fn from(coord: (u32, u32)) -> (cellul: Cellul) {
        Cellul { state: CellulState::DEAD, coordinate: Coordinate { row: coord.0, column: coord.1 } }
    }
}

impl vstd::std_specs::convert::FromSpecImpl<(u32, u32)> for Cellul {
    open spec fn obeys_from_spec() -> bool {
        true
    }

    open spec fn from_spec(coord: (u32, u32)) -> Cellul {
        Cellul { state: CellulState::DEAD, coordinate: Coordinate { row: coord.0, column: coord.1 } }
    }
}

} // verus!
