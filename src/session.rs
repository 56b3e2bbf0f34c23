//! The interactive session: clicks bring cells to life while editing, one
//! command starts the simulation, and time then advances it one generation
//! per interval. The caller polls input and the clock and hands the events
//! in; nothing here draws or waits.
use vstd::prelude::*;
use crate::geometry::{cell_of, denormalize};
use crate::grid::{Board, Grid, empty_board, next_gen, set_alive};

verus! {

/// A grid with the time of its last generation and the interval between
/// generations, both in milliseconds.
pub struct Session {
    grid: Grid,
    last_update: u64,
    interval: u64,
}

/// The cell (`row`, `col`) lies on a board of side `n`.
pub open spec fn on_board(n: nat, row: int, col: int) -> bool {
    0 <= row < n && 0 <= col < n
}

impl Session {
    /// The grid being edited or run.
    pub closed spec fn grid_spec(&self) -> Grid {
        self.grid
    }

    /// The board of the grid.
    pub open spec fn board(&self) -> Board {
        self.grid_spec()@
    }

    /// Whether the simulation has started.
    pub open spec fn is_running(&self) -> bool {
        self.grid_spec().is_running()
    }

    /// When the last generation was computed, or the simulation started.
    pub closed spec fn last_update_spec(&self) -> u64 {
        self.last_update
    }

    /// The least time between two generations.
    pub closed spec fn interval_spec(&self) -> u64 {
        self.interval
    }

    /// The session's grid is well formed.
    pub open spec fn wf(&self) -> bool {
        self.grid_spec().wf()
    }

    /// A session in editing mode on an all-dead board of side `n`.
    pub fn new(n: usize, interval: u64) -> (s: Session)
        ensures
            s.wf(),
            !s.is_running(),
            s.board() == empty_board(n as nat),
            s.interval_spec() == interval,
            s.last_update_spec() == 0,
    {
        Session { grid: Grid::new(n), last_update: 0, interval }
    }

    /// The grid, for reading its cells.
    pub fn grid(&self) -> (g: &Grid)
        ensures
            *g == self.grid_spec(),
    {
        &self.grid
    }

    /// A click at pixel (`x`, `y`): while editing, the cell under it comes
    /// to life when it lies on the board. Returns whether a cell was set.
    pub fn click(&mut self, x: i32, y: i32) -> (set: bool)
        requires
            old(self).wf(),
        ensures
            final(self).wf(),
            final(self).is_running() == old(self).is_running(),
            final(self).last_update_spec() == old(self).last_update_spec(),
            final(self).interval_spec() == old(self).interval_spec(),
            set == (!old(self).is_running() && on_board(
                old(self).board().len(),
                cell_of(y as int),
                cell_of(x as int),
            )),
            final(self).board() == if set {
                set_alive(old(self).board(), cell_of(y as int), cell_of(x as int))
            } else {
                old(self).board()
            },
    {
        if self.grid.running() {
            return false;
        }
        let col = denormalize(x);
        let row = denormalize(y);
        let n = self.grid.size();
        if row >= 0 && col >= 0 && (row as usize) < n && (col as usize) < n {
            self.grid.toggle_cell(row as usize, col as usize);
            true
        } else {
            false
        }
    }

    /// The start command at time `now`: leaves editing mode, once; later
    /// commands change nothing.
    pub fn press_start(&mut self, now: u64)
        requires
            old(self).wf(),
        ensures
            final(self).wf(),
            final(self).is_running(),
            final(self).board() == old(self).board(),
            final(self).interval_spec() == old(self).interval_spec(),
            final(self).last_update_spec() == if old(self).is_running() {
                old(self).last_update_spec()
            } else {
                now
            },
    {
        if !self.grid.running() {
            self.grid.start();
            self.last_update = now;
        }
    }

    /// A frame at time `now`: while running, once an interval has passed
    /// since the last generation, computes the next one. Returns whether it
    /// did.
    pub fn advance(&mut self, now: u64) -> (stepped: bool)
        requires
            old(self).wf(),
        ensures
            final(self).wf(),
            final(self).is_running() == old(self).is_running(),
            final(self).interval_spec() == old(self).interval_spec(),
            stepped == (old(self).is_running() && now >= old(self).last_update_spec()
                && now - old(self).last_update_spec() >= old(self).interval_spec()),
            final(self).board() == if stepped {
                next_gen(old(self).board())
            } else {
                old(self).board()
            },
            final(self).last_update_spec() == if stepped {
                now
            } else {
                old(self).last_update_spec()
            },
    {
        if self.grid.running() && now >= self.last_update && now - self.last_update >= self.interval {
            self.grid.step();
            self.last_update = now;
            true
        } else {
            false
        }
    }
}

} // verus!
