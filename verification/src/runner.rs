//! The simulation runner: a grid together with the run configuration that
//! the external driver resolved. The driver owns the render/pause/advance
//! loop itself; everything it needs from the core is here and on `Grid`.

use vstd::prelude::*;
use crate::cellul::Coordinate;
use crate::grid::Grid;

verus! {

/// One simulation: the grid and how the driver should pace it.
#[derive(Debug)]
pub struct Runner {
    /// The grid being simulated.
    pub grid: Grid,
    /// How many generations the driver should run.
    pub max_step: u32,
    /// The pause between steps, in milliseconds.
    pub step_timer_ms: u64,
}

impl Runner {
    /// A well-formed runner is one whose grid is well-formed.
    pub open spec fn wf(self) -> bool {
        self.grid.wf()
    }

    /// Create a runner over a fresh, all-dead grid of the given size.
    pub fn new(grid_width: u32, grid_height: u32, max_step: u32, step_timer_ms: u64) -> (runner:
        Runner)
        requires
            (grid_width as int) * (grid_height as int) <= usize::MAX as int,
        ensures
            runner.wf(),
            runner.grid.width == grid_width,
            runner.grid.height == grid_height,
            runner.max_step == max_step,
            runner.step_timer_ms == step_timer_ms,
            forall|r: int, c: int|
                Coordinate::spec_is_valid(r, c, grid_width as int, grid_height as int)
                    ==> !(#[trigger] runner.grid.spec_alive(r, c)),
    {
        Runner { grid: Grid::new(grid_width, grid_height), max_step, step_timer_ms }
    }

    /// Revive the listed cells on the grid; pairs off the grid are silently
    /// skipped.
    pub fn initialize_grid(&mut self, alive_cells: Vec<(u32, u32)>)
        requires
            old(self).wf(),
        ensures
            final(self).wf(),
            final(self).grid.width == old(self).grid.width,
            final(self).grid.height == old(self).grid.height,
            final(self).max_step == old(self).max_step,
            final(self).step_timer_ms == old(self).step_timer_ms,
            forall|r: int, c: int|
                Coordinate::spec_is_valid(
                    r,
                    c,
                    old(self).grid.width as int,
                    old(self).grid.height as int,
                ) ==> (#[trigger] final(self).grid.spec_alive(r, c)) == (old(self).grid.spec_alive(
                    r,
                    c,
                ) || alive_cells@.contains(((r as u32, c as u32)))),
    {
        self.grid.seed(&alive_cells);
    }
}

} // verus!
